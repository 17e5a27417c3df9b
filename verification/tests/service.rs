use obs_rs::service::context::{CreatableServiceContext, ServiceRef};
use obs_rs::source::traits::CreateError;
use obs_rs::service::context::{ConnectInfo, Resolution, ServiceResolution};
use obs_rs::service::traits::{
    CanTryToConnectService, GetConnectInfoService, GetMaxBitrateService, GetNameService,
    GetProtocolService, GetSupportedResolutionsService, Serviceable,
};
use obs_rs::service::{raw_resolutions, resolutions_from_raw, ServiceInfoBuilder};

struct MyTwitch {
    url: String,
    key: String,
}

impl Serviceable for MyTwitch {
    fn create(_context: &mut CreatableServiceContext, _handle: ServiceRef) -> Result<Self, CreateError> {
        Ok(MyTwitch { url: String::from("rtmp://live.twitch.tv/app"), key: String::new() })
    }
    fn get_id() -> &'static str {
        "my_twitch"
    }
}

impl GetNameService for MyTwitch {
    fn get_name() -> &'static str {
        "My Twitch"
    }
}

impl GetConnectInfoService for MyTwitch {
    fn get_connect_info(&self, kind: ConnectInfo) -> Option<&str> {
        match kind {
            ConnectInfo::ServerUrl => Some(&self.url),
            ConnectInfo::StreamKey => Some(&self.key),
            _ => None,
        }
    }
}

impl GetProtocolService for MyTwitch {
    fn get_protocol(&self) -> Option<&str> {
        Some("RTMP")
    }
}

impl GetSupportedResolutionsService for MyTwitch {
    fn get_supported_resolutions(&self) -> Vec<Resolution> {
        vec![Resolution::new(1920, 1080), Resolution::new(1280, 720)]
    }
}

impl GetMaxBitrateService for MyTwitch {
    fn get_max_bitrate(&self) -> (i32, i32) {
        (6000, 160)
    }
}

impl CanTryToConnectService for MyTwitch {
    fn can_try_to_connect(&self) -> bool {
        !self.key.is_empty()
    }
}

#[test]
fn service_builder_collects_callbacks() {
    let info = ServiceInfoBuilder::<MyTwitch>::new()
        .enable_get_name()
        .enable_get_connect_info()
        .enable_get_protocol()
        .enable_get_supported_resolutions()
        .enable_get_max_bitrate()
        .enable_can_try_to_connect()
        .build();
    assert_eq!(info.id, "my_twitch");
    assert!(info.callbacks.get_name);
    assert!(info.callbacks.get_connect_info);
    assert!(info.callbacks.get_protocol);
    assert!(info.callbacks.get_supported_resolutions);
    assert!(info.callbacks.get_max_bitrate);
    assert!(info.callbacks.can_try_to_connect);
    assert!(!info.callbacks.get_url);
    assert!(!info.callbacks.update);
}

#[test]
fn connect_info_raw_values() {
    assert_eq!(ConnectInfo::ServerUrl.as_raw(), 0);
    assert_eq!(ConnectInfo::StreamKey.as_raw(), 2);
    assert_eq!(ConnectInfo::Username.as_raw(), 4);
    assert_eq!(ConnectInfo::Password.as_raw(), 6);
    assert_eq!(ConnectInfo::EncryptPassphrase.as_raw(), 8);
    assert_eq!(ConnectInfo::BearerToken.as_raw(), 10);
    assert_eq!(ConnectInfo::from_raw(2), ConnectInfo::StreamKey);
    assert_eq!(ConnectInfo::from_raw(3), ConnectInfo::Other(3));
    assert_eq!(ConnectInfo::Other(3).as_raw(), 3);
    assert_eq!(ConnectInfo::from_raw(ConnectInfo::BearerToken.as_raw()), ConnectInfo::BearerToken);
}

#[test]
fn connect_info_dispatch_through_trait() {
    let s = MyTwitch { url: String::from("rtmp://live.twitch.tv/app"), key: String::from("k") };
    assert_eq!(s.get_connect_info(ConnectInfo::from_raw(0)), Some("rtmp://live.twitch.tv/app"));
    assert_eq!(s.get_connect_info(ConnectInfo::from_raw(2)), Some("k"));
    assert_eq!(s.get_connect_info(ConnectInfo::from_raw(4)), None);
    assert!(s.can_try_to_connect());
}

#[test]
fn resolutions_convert_both_ways() {
    let r = Resolution::new(1280, 720);
    let raw = r.into_raw();
    assert_eq!(raw, ServiceResolution { cx: 1280, cy: 720 });
    assert_eq!(Resolution::from_raw(raw), r);
}

#[test]
fn raw_resolution_table_keeps_order() {
    let s = MyTwitch { url: String::new(), key: String::new() };
    let table = raw_resolutions(&s.get_supported_resolutions());
    assert_eq!(
        table,
        vec![ServiceResolution { cx: 1920, cy: 1080 }, ServiceResolution { cx: 1280, cy: 720 }]
    );
    assert_eq!(raw_resolutions(&Vec::new()), Vec::new());
}

#[test]
fn resolution_table_reads_back() {
    let v = vec![Resolution::new(1920, 1080), Resolution::new(854, 480)];
    assert_eq!(resolutions_from_raw(&raw_resolutions(&v)), v);
    assert!(resolutions_from_raw(&[]).is_empty());
}
