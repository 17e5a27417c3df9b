use obs_rs::encoder::context::CreatableEncoderContext;
use obs_rs::encoder::EncoderRef;
use obs_rs::output::context::CreatableOutputContext;
use obs_rs::output::OutputRef;
use obs_rs::service::context::{CreatableServiceContext, ServiceRef};
use obs_rs::source::context::CreatableSourceContext;
use obs_rs::source::traits::CreateError;
use obs_rs::source::SourceRef;
use obs_rs::encoder::traits::{EncodeEncoder, Encodable};
use obs_rs::encoder::context::{EncodeError, EncodeStatus, EncoderFrame, EncoderPacket};
use obs_rs::encoder::EncoderType;
use obs_rs::listing::{EnumReply, TypeListing};
use obs_rs::module::LoadContext;
use obs_rs::output::traits::Outputable;
use obs_rs::service::traits::Serviceable;
use obs_rs::source::traits::{GetNameSource, Sourceable};
use obs_rs::source::SourceType;

struct Src;
impl Sourceable for Src {
    fn create(_c: &mut CreatableSourceContext<'_, Self>, _s: SourceRef) -> Result<Self, CreateError> {
        Ok(Src)
    }
    fn get_id() -> &'static str {
        "src"
    }
    fn get_type() -> SourceType {
        SourceType::Input
    }
}
impl GetNameSource for Src {
    fn get_name() -> &'static str {
        "Src"
    }
}

struct Src2;
impl Sourceable for Src2 {
    fn create(_c: &mut CreatableSourceContext<'_, Self>, _s: SourceRef) -> Result<Self, CreateError> {
        Ok(Src2)
    }
    fn get_id() -> &'static str {
        "src2"
    }
    fn get_type() -> SourceType {
        SourceType::Filter
    }
}

struct Out;
impl Outputable for Out {
    fn create(_c: &mut CreatableOutputContext<Self>, _o: OutputRef) -> Result<Self, CreateError> {
        Ok(Out)
    }
    fn get_id() -> &'static str {
        "out"
    }
}

struct Enc;
impl Encodable for Enc {
    fn create(_c: &mut CreatableEncoderContext, _e: EncoderRef) -> Result<Self, CreateError> {
        Ok(Enc)
    }
    fn get_id() -> &'static str {
        "enc"
    }
    fn get_codec() -> &'static str {
        "h264"
    }
    fn get_type() -> EncoderType {
        EncoderType::Video
    }
}
impl EncodeEncoder for Enc {
    fn encode(
        &mut self,
        _frame: &EncoderFrame,
        _packet: &mut EncoderPacket,
    ) -> Result<EncodeStatus, EncodeError> {
        Ok(EncodeStatus::NotReady)
    }
}

struct Svc;
impl Serviceable for Svc {
    fn create(_c: &mut CreatableServiceContext, _s: ServiceRef) -> Result<Self, CreateError> {
        Ok(Svc)
    }
    fn get_id() -> &'static str {
        "svc"
    }
}

#[test]
fn load_context_keeps_registrations_in_order() {
    let mut ctx = LoadContext::new();
    let a = ctx.create_source_builder::<Src>().enable_get_name().build();
    let b = ctx.create_source_builder::<Src2>().build();
    ctx.register_source(a);
    ctx.register_source(b);
    let o = ctx.create_output_builder::<Out>().build();
    ctx.register_output(o);
    let e = ctx.create_encoder_builder::<Enc>().enable_encode().build();
    ctx.register_encoder(e);
    let s = ctx.create_service_builder::<Svc>().build();
    ctx.register_service(s);

    let ids: Vec<&str> = ctx.sources().iter().map(|s| s.id).collect();
    assert_eq!(ids, vec!["src", "src2"]);
    assert!(ctx.sources()[0].callbacks.get_name);
    assert_eq!(ctx.outputs().len(), 1);
    assert_eq!(ctx.outputs()[0].id, "out");
    assert_eq!(ctx.encoders().len(), 1);
    assert_eq!(ctx.encoders()[0].codec, "h264");
    assert!(ctx.encoders()[0].callbacks.encode);
    assert_eq!(ctx.services().len(), 1);
    assert_eq!(ctx.services()[0].id, "svc");
}

#[test]
fn new_load_context_is_empty() {
    let ctx = LoadContext::new();
    assert!(ctx.sources().is_empty());
    assert!(ctx.outputs().is_empty());
    assert!(ctx.encoders().is_empty());
    assert!(ctx.services().is_empty());
}

#[test]
fn type_listing_follows_replies() {
    let mut listing = TypeListing::new();
    assert_eq!(listing.next_index(), 0);
    assert!(listing.step(EnumReply::Id(String::from("color_source"))));
    assert_eq!(listing.next_index(), 1);
    assert!(listing.step(EnumReply::Null));
    assert!(listing.step(EnumReply::Id(String::from("image_source"))));
    assert_eq!(listing.next_index(), 3);
    assert!(!listing.is_done());
    assert!(!listing.step(EnumReply::End));
    assert!(listing.is_done());
    // replies after the end change nothing
    assert!(!listing.step(EnumReply::Id(String::from("late"))));
    assert_eq!(
        listing.into_types(),
        vec![String::from("color_source"), String::new(), String::from("image_source")]
    );
}

#[test]
fn type_listing_empty_enumeration() {
    let mut listing = TypeListing::new();
    assert!(!listing.step(EnumReply::End));
    assert!(listing.into_types().is_empty());
}
