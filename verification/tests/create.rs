use obs_rs::encoder::context::{
    CreatableEncoderContext, EncodeError, EncodeStatus, EncoderFrame, EncoderPacket, PacketHeader,
};
use obs_rs::encoder::traits::{EncodeEncoder, EncodeTextureEncoder, Encodable};
use obs_rs::encoder::{self, encode_into, encode_texture_into, EncoderRef, EncoderType};
use obs_rs::hotkey::{Hotkey, HotkeyCallback};
use obs_rs::output::context::CreatableOutputContext;
use obs_rs::output::traits::{GetDefaultsOutput, Outputable, UpdateOutput};
use obs_rs::output::{self, OutputInfoBuilder, OutputRef};
use obs_rs::service::context::{CreatableServiceContext, ServiceRef};
use obs_rs::service::traits::{
    ActivateService, ApplyEncoderSettingsService, GetDefaultsService, Serviceable, UpdateService,
};
use obs_rs::service::{self, ServiceInfoBuilder};
use obs_rs::settings::Settings;
use obs_rs::source::context::{CreatableSourceContext, GlobalContext};
use obs_rs::source::traits::{CreateError, GetDefaultsSource, Sourceable, UpdateSource};
use obs_rs::source::{SourceInfoBuilder, SourceRef, SourceType};

struct Enc {
    fail: bool,
    saw_empty_payload: bool,
}

impl Encodable for Enc {
    fn get_id() -> &'static str {
        "enc"
    }
    fn get_codec() -> &'static str {
        "h264"
    }
    fn get_type() -> EncoderType {
        EncoderType::Video
    }
    fn create(context: &mut CreatableEncoderContext, encoder: EncoderRef) -> Result<Self, CreateError> {
        if context.settings.as_raw() == 7 {
            return Err(CreateError { message: String::from("bad settings") });
        }
        assert_eq!(encoder.as_raw(), 42);
        Ok(Enc { fail: false, saw_empty_payload: false })
    }
}

impl EncodeEncoder for Enc {
    fn encode(
        &mut self,
        _frame: &EncoderFrame,
        packet: &mut EncoderPacket,
    ) -> Result<EncodeStatus, EncodeError> {
        self.saw_empty_payload = packet.view().data().is_empty();
        if self.fail {
            return Err(EncodeError { message: String::from("fail") });
        }
        packet.write(&[1, 2]);
        Ok(EncodeStatus::Received)
    }
}

impl EncodeTextureEncoder for Enc {
    fn encode_texture(
        &mut self,
        _handle: u32,
        _pts: i64,
        lock_key: u64,
        next_key: &mut u64,
        packet: &mut EncoderPacket,
    ) -> Result<EncodeStatus, EncodeError> {
        self.saw_empty_payload = packet.view().data().is_empty();
        *next_key = lock_key + 1;
        Ok(EncodeStatus::NotReady)
    }
}

#[test]
fn encode_shim_clears_packet_and_reports_result() {
    let mut enc = Enc { fail: false, saw_empty_payload: false };
    let empty: &[u8] = &[];
    let frame = EncoderFrame::from_parts([empty; 8], [0; 8], 0, 0);
    let mut packet = EncoderPacket::from_parts(PacketHeader::zeroed(), vec![9, 9, 9]);
    let (result, outcome) = encode_into(&mut enc, &frame, &mut packet);
    assert!(enc.saw_empty_payload);
    assert!(matches!(result, Ok(EncodeStatus::Received)));
    assert_eq!(outcome, (true, true));
    assert_eq!(packet.view().data(), &[1, 2][..]);

    enc.fail = true;
    let (result, outcome) = encode_into(&mut enc, &frame, &mut packet);
    assert!(result.is_err());
    assert_eq!(outcome, (false, false));
}

#[test]
fn encode_texture_shim_reports_not_ready() {
    let mut enc = Enc { fail: false, saw_empty_payload: false };
    let mut packet = EncoderPacket::from_parts(PacketHeader::zeroed(), vec![5]);
    let mut next_key = 0;
    let (result, outcome) = encode_texture_into(&mut enc, 3, 0, 10, &mut next_key, &mut packet);
    assert!(enc.saw_empty_payload);
    assert!(matches!(result, Ok(EncodeStatus::NotReady)));
    assert_eq!(outcome, (true, false));
    assert_eq!(next_key, 11);
}

#[test]
fn settings_and_handles_from_raw() {
    assert!(Settings::from_raw(0).is_none());
    assert_eq!(Settings::from_raw(16).map(|s| s.as_raw()), Some(16));
    assert!(EncoderRef::from_raw(0).is_none());
    assert_eq!(OutputRef::from_raw(8).map(|h| h.as_raw()), Some(8));
    assert!(ServiceRef::from_raw(0).is_none());
    assert_eq!(SourceRef::from_raw(24).map(|h| h.as_raw()), Some(24));
}

#[test]
fn encoder_create_instance() {
    let made = encoder::create_instance::<Enc>(Settings::from_raw(1), EncoderRef::from_raw(42))
        .expect("created");
    assert!(made.buffer.is_empty() && made.extra_data.is_empty() && made.sei_data.is_empty());
    assert!(!made.data.fail);
    assert!(encoder::create_instance::<Enc>(None, EncoderRef::from_raw(42)).is_none());
    assert!(encoder::create_instance::<Enc>(Settings::from_raw(1), None).is_none());
    assert!(encoder::create_instance::<Enc>(Settings::from_raw(7), EncoderRef::from_raw(42)).is_none());
    let err: Result<Enc, CreateError> = Err(CreateError { message: String::from("x") });
    assert!(encoder::instance_from_result(err).is_none());
}

struct Toggle;

impl HotkeyCallback<Out> for Toggle {
    fn call(&mut self, hotkey: &mut Hotkey, data: &mut Out) {
        if hotkey.pressed {
            data.active = !data.active;
        }
    }
}

struct Out {
    active: bool,
}

impl Outputable for Out {
    fn get_id() -> &'static str {
        "out"
    }
    fn create(context: &mut CreatableOutputContext<Self>, _output: OutputRef) -> Result<Self, CreateError> {
        context.register_hotkey("toggle", "Toggle output", Toggle);
        Ok(Out { active: false })
    }
}

impl UpdateOutput for Out {
    fn update(&mut self, _settings: &mut Settings) {}
}

impl GetDefaultsOutput for Out {
    fn get_defaults(_settings: &mut Settings) {}
}

#[test]
fn output_create_instance_takes_hotkeys() {
    let mut made = output::create_instance::<Out>(Settings::from_raw(1), OutputRef::from_raw(2))
        .expect("created");
    assert_eq!(made.hotkeys.len(), 1);
    assert_eq!(made.hotkeys[0].name, "toggle");
    assert_eq!(made.hotkeys[0].description, "Toggle output");
    let mut hk = Hotkey::from_parts(5, true);
    made.hotkeys[0].callback.call(&mut hk, &mut made.data);
    assert!(made.data.active);
    assert!(output::create_instance::<Out>(None, OutputRef::from_raw(2)).is_none());
    assert!(output::create_instance::<Out>(Settings::from_raw(1), None).is_none());

    let mut ctx = CreatableOutputContext::<Out>::from_raw(Settings::from_raw(3).unwrap());
    assert_eq!(ctx.settings().as_raw(), 3);
    ctx.register_hotkey("a", "A", Toggle);
    ctx.register_hotkey("b", "B", Toggle);
    let names: Vec<String> = ctx.into_hotkeys().into_iter().map(|h| h.name).collect();
    assert_eq!(names, vec![String::from("a"), String::from("b")]);
}

#[test]
fn output_settings_callbacks() {
    let info = OutputInfoBuilder::<Out>::new().enable_update().enable_get_defaults().build();
    assert!(info.callbacks.update);
    assert!(info.callbacks.get_defaults);
    assert_eq!(info.flags, 0);
}

struct Svc;

impl Serviceable for Svc {
    fn get_id() -> &'static str {
        "svc"
    }
    fn create(context: &mut CreatableServiceContext, _service: ServiceRef) -> Result<Self, CreateError> {
        if context.settings.as_raw() == 9 {
            Err(CreateError { message: String::from("no") })
        } else {
            Ok(Svc)
        }
    }
}

impl ActivateService for Svc {
    fn activate(&mut self, _settings: &mut Settings) {}
}
impl UpdateService for Svc {
    fn update(&mut self, _settings: &mut Settings) {}
}
impl GetDefaultsService for Svc {
    fn get_defaults(_settings: &mut Settings) {}
}
impl ApplyEncoderSettingsService for Svc {
    fn apply_encoder_settings(&mut self, _v: Option<&mut Settings>, _a: Option<&mut Settings>) {}
}

#[test]
fn service_create_instance_and_callbacks() {
    let made = service::create_instance::<Svc>(Settings::from_raw(1), ServiceRef::from_raw(2))
        .expect("created");
    assert!(made.video_codecs.is_empty() && made.audio_codecs.is_empty() && made.resolutions.is_empty());
    assert!(service::create_instance::<Svc>(Settings::from_raw(9), ServiceRef::from_raw(2)).is_none());
    assert!(service::create_instance::<Svc>(Settings::from_raw(1), None).is_none());
    let info = ServiceInfoBuilder::<Svc>::new()
        .enable_activate()
        .enable_update()
        .enable_get_defaults()
        .enable_apply_encoder_settings()
        .build();
    assert!(info.callbacks.activate && info.callbacks.update);
    assert!(info.callbacks.get_defaults && info.callbacks.apply_encoder_settings);
    assert!(!info.callbacks.get_name);
}

struct Src;

impl Sourceable for Src {
    fn get_id() -> &'static str {
        "src"
    }
    fn get_type() -> SourceType {
        SourceType::Input
    }
    fn create(context: &mut CreatableSourceContext<'_, Self>, _source: SourceRef) -> Result<Self, CreateError> {
        assert_eq!(context.settings().as_raw(), 4);
        Ok(Src)
    }
}

impl UpdateSource for Src {
    fn update(&mut self, _settings: &mut Settings, _context: &mut GlobalContext) {}
}
impl GetDefaultsSource for Src {
    fn get_defaults(_settings: &mut Settings) {}
}

#[test]
fn source_settings_callbacks_and_context() {
    let info = SourceInfoBuilder::<Src>::new().enable_update().enable_get_defaults().build();
    assert!(info.callbacks.update && info.callbacks.get_defaults);
    assert_eq!(info.output_flags, 0);
    let mut global = GlobalContext;
    let mut ctx = CreatableSourceContext::<Src>::from_raw(Settings::from_raw(4).unwrap(), &mut global);
    let made = Src::create(&mut ctx, SourceRef::from_raw(1).unwrap());
    assert!(made.is_ok());
    assert!(ctx.into_hotkeys().is_empty());
}

#[test]
fn source_id_follows_address() {
    let a = SourceRef::from_raw(0x1000).unwrap();
    let b = SourceRef::from_raw(0x1000).unwrap();
    let c = SourceRef::from_raw(0x2000).unwrap();
    assert_eq!(a.id(), 0x1000);
    assert_eq!(a.id(), b.id());
    assert_ne!(a.id(), c.id());
    assert_eq!(a, b);
    assert_ne!(a, c);
    assert_eq!(a.id(), a.as_raw());
}

#[test]
fn source_context_global_is_reachable() {
    let mut global = GlobalContext;
    let mut ctx = CreatableSourceContext::<Src>::from_raw(Settings::from_raw(4).unwrap(), &mut global);
    let g: &mut GlobalContext = ctx.global();
    assert_eq!(*g, GlobalContext);
    assert_eq!(ctx.settings().as_raw(), 4);
}
