use bandage::Bandage;
use bandage::Clean;
use bandage::Tag;

#[test]
fn user_build_two_fields() {
    let e = Bandage::UserBuild {
        value: vec!["name".to_string(), "age".to_string()],
    };
    assert_eq!(e.describe(), "Value not provided for [\"name\", \"age\"].");
}

#[test]
fn user_build_single_field() {
    let e = Bandage::UserBuild {
        value: vec!["name".to_string()],
    };
    assert_eq!(e.describe(), "Value not provided for [\"name\"].");
}

#[test]
fn user_build_no_fields() {
    let e = Bandage::UserBuild { value: vec![] };
    assert_eq!(e.describe(), "Value not provided for [].");
}

#[test]
fn file_name_is_quoted() {
    let e = Bandage::FileName("logs/../x.txt".to_string());
    assert_eq!(e.describe(), "Bad file name \"logs/../x.txt\".");
}

#[test]
fn payload_free_tags_have_fixed_messages() {
    assert_eq!(Bandage::Auth.describe(), "Authorization failed.");
    assert_eq!(Bandage::Parse.describe(), "Parse error.");
    assert_eq!(Bandage::Unknown.describe(), "Unexpected error.");
}

#[test]
fn describe_is_deterministic() {
    let a = Bandage::Hint("left as is".to_string());
    let b = Bandage::Hint("left as is".to_string());
    assert_eq!(a.describe(), b.describe());
    assert_eq!(a.describe(), a.describe());
}

#[test]
fn wrap_then_inspect_returns_message() {
    let e = Bandage::Io("file vanished".to_string());
    assert_eq!(e.payload_message(), Some("file vanished".to_string()));
    let h = Bandage::Hint("watch out".to_string());
    assert_eq!(h.payload_message(), Some("watch out".to_string()));
}

#[test]
fn wrap_then_inspect_keeps_empty_message() {
    let e = Bandage::Utf8(String::new());
    assert_eq!(e.payload_message(), Some(String::new()));
    assert_eq!(e.describe(), "Utf8 error: ");
}

#[test]
fn payload_free_tags_have_no_payload() {
    assert_eq!(Bandage::Auth.payload_message(), None);
    assert_eq!(Bandage::Parse.payload_message(), None);
    assert_eq!(Bandage::Unknown.payload_message(), None);
    let b = Bandage::UserBuild { value: vec!["k".to_string()] };
    assert_eq!(b.payload_message(), None);
}

#[test]
fn describe_contains_payload_for_every_message_tag() {
    let wrapped = vec![
        Bandage::Env("zap".to_string()),
        Bandage::FileName("zap".to_string()),
        Bandage::Int("zap".to_string()),
        Bandage::Io("zap".to_string()),
        Bandage::Utf8("zap".to_string()),
        Bandage::Hint("zap".to_string()),
        Bandage::Bin("zap".to_string()),
        Bandage::Byte("zap".to_string()),
        Bandage::Csv("zap".to_string()),
        Bandage::Http("zap".to_string()),
        Bandage::Image("zap".to_string()),
        Bandage::Oauth2("zap".to_string()),
        Bandage::Serialize("zap".to_string()),
        Bandage::SerdeJson("zap".to_string()),
        Bandage::Sqlx("zap".to_string()),
        Bandage::Migrate("zap".to_string()),
        Bandage::Uuid("zap".to_string()),
        Bandage::Url("zap".to_string()),
        Bandage::BitMap("zap".to_string()),
        Bandage::Plot("zap".to_string()),
        Bandage::GeoJson("zap".to_string()),
        Bandage::TraceInit("zap".to_string()),
        Bandage::Axum("zap".to_string()),
        Bandage::AxumHttp("zap".to_string()),
        Bandage::Hyper("zap".to_string()),
        Bandage::HyperUtil("zap".to_string()),
        Bandage::Shapefile("zap".to_string()),
        Bandage::BadIcon("zap".to_string()),
        Bandage::EventLoop("zap".to_string()),
        Bandage::WinOs("zap".to_string()),
        Bandage::WinitIcon("zap".to_string()),
        Bandage::WgpuSurface("zap".to_string()),
        Bandage::WgpuDevice("zap".to_string()),
        Bandage::Nom("zap".to_string()),
        Bandage::Tiberius("zap".to_string()),
        Bandage::Dotenv("zap".to_string()),
        Bandage::Jiff("zap".to_string()),
    ];
    for e in &wrapped {
        let msg = e.describe();
        assert!(msg.contains("zap"));
        assert_eq!(e.payload_message(), Some("zap".to_string()));
    }
}

#[test]
fn describe_is_never_empty() {
    let all = vec![
        Bandage::Auth,
        Bandage::Env(String::new()),
        Bandage::FileName(String::new()),
        Bandage::Int(String::new()),
        Bandage::Io(String::new()),
        Bandage::Parse,
        Bandage::UserBuild { value: vec![] },
        Bandage::Utf8(String::new()),
        Bandage::Hint(String::new()),
        Bandage::Unknown,
        Bandage::Bin(String::new()),
        Bandage::Byte(String::new()),
        Bandage::Csv(String::new()),
        Bandage::Http(String::new()),
        Bandage::Image(String::new()),
        Bandage::Oauth2(String::new()),
        Bandage::Serialize(String::new()),
        Bandage::SerdeJson(String::new()),
        Bandage::Sqlx(String::new()),
        Bandage::Migrate(String::new()),
        Bandage::Uuid(String::new()),
        Bandage::Url(String::new()),
        Bandage::BitMap(String::new()),
        Bandage::Plot(String::new()),
        Bandage::GeoJson(String::new()),
        Bandage::TraceInit(String::new()),
        Bandage::Axum(String::new()),
        Bandage::AxumHttp(String::new()),
        Bandage::Hyper(String::new()),
        Bandage::HyperUtil(String::new()),
        Bandage::Shapefile(String::new()),
        Bandage::BadIcon(String::new()),
        Bandage::EventLoop(String::new()),
        Bandage::WinOs(String::new()),
        Bandage::WinitIcon(String::new()),
        Bandage::WgpuSurface(String::new()),
        Bandage::WgpuDevice(String::new()),
        Bandage::Nom(String::new()),
        Bandage::Tiberius(String::new()),
        Bandage::Dotenv(String::new()),
        Bandage::Jiff(String::new()),
    ];
    for e in &all {
        assert!(!e.describe().is_empty());
    }
}

#[test]
fn every_tag_is_reported() {
    assert_eq!(Bandage::Auth.tag(), Tag::Auth);
    assert_eq!(Bandage::Env(String::new()).tag(), Tag::Env);
    assert_eq!(Bandage::FileName(String::new()).tag(), Tag::FileName);
    assert_eq!(Bandage::Int(String::new()).tag(), Tag::Int);
    assert_eq!(Bandage::Io(String::new()).tag(), Tag::Io);
    assert_eq!(Bandage::Parse.tag(), Tag::Parse);
    assert_eq!(Bandage::UserBuild { value: vec![] }.tag(), Tag::UserBuild);
    assert_eq!(Bandage::Utf8(String::new()).tag(), Tag::Utf8);
    assert_eq!(Bandage::Hint(String::new()).tag(), Tag::Hint);
    assert_eq!(Bandage::Unknown.tag(), Tag::Unknown);
    assert_eq!(Bandage::Bin(String::new()).tag(), Tag::Bin);
    assert_eq!(Bandage::Byte(String::new()).tag(), Tag::Byte);
    assert_eq!(Bandage::Csv(String::new()).tag(), Tag::Csv);
    assert_eq!(Bandage::Http(String::new()).tag(), Tag::Http);
    assert_eq!(Bandage::Image(String::new()).tag(), Tag::Image);
    assert_eq!(Bandage::Oauth2(String::new()).tag(), Tag::Oauth2);
    assert_eq!(Bandage::Serialize(String::new()).tag(), Tag::Serialize);
    assert_eq!(Bandage::SerdeJson(String::new()).tag(), Tag::SerdeJson);
    assert_eq!(Bandage::Sqlx(String::new()).tag(), Tag::Sqlx);
    assert_eq!(Bandage::Migrate(String::new()).tag(), Tag::Migrate);
    assert_eq!(Bandage::Uuid(String::new()).tag(), Tag::Uuid);
    assert_eq!(Bandage::Url(String::new()).tag(), Tag::Url);
    assert_eq!(Bandage::BitMap(String::new()).tag(), Tag::BitMap);
    assert_eq!(Bandage::Plot(String::new()).tag(), Tag::Plot);
    assert_eq!(Bandage::GeoJson(String::new()).tag(), Tag::GeoJson);
    assert_eq!(Bandage::TraceInit(String::new()).tag(), Tag::TraceInit);
    assert_eq!(Bandage::Axum(String::new()).tag(), Tag::Axum);
    assert_eq!(Bandage::AxumHttp(String::new()).tag(), Tag::AxumHttp);
    assert_eq!(Bandage::Hyper(String::new()).tag(), Tag::Hyper);
    assert_eq!(Bandage::HyperUtil(String::new()).tag(), Tag::HyperUtil);
    assert_eq!(Bandage::Shapefile(String::new()).tag(), Tag::Shapefile);
    assert_eq!(Bandage::BadIcon(String::new()).tag(), Tag::BadIcon);
    assert_eq!(Bandage::EventLoop(String::new()).tag(), Tag::EventLoop);
    assert_eq!(Bandage::WinOs(String::new()).tag(), Tag::WinOs);
    assert_eq!(Bandage::WinitIcon(String::new()).tag(), Tag::WinitIcon);
    assert_eq!(Bandage::WgpuSurface(String::new()).tag(), Tag::WgpuSurface);
    assert_eq!(Bandage::WgpuDevice(String::new()).tag(), Tag::WgpuDevice);
    assert_eq!(Bandage::Nom(String::new()).tag(), Tag::Nom);
    assert_eq!(Bandage::Tiberius(String::new()).tag(), Tag::Tiberius);
    assert_eq!(Bandage::Dotenv(String::new()).tag(), Tag::Dotenv);
    assert_eq!(Bandage::Jiff(String::new()).tag(), Tag::Jiff);
}

#[test]
fn clean_alias_carries_the_union() {
    let failed: Clean<u32> = Err(Bandage::Auth);
    match failed {
        Ok(_) => panic!("expected an error"),
        Err(e) => assert_eq!(e.describe(), "Authorization failed."),
    }
}

#[test]
fn wrapping_is_injective() {
    let same_payload_int = Bandage::Int("boom".to_string());
    let same_payload_io = Bandage::Io("boom".to_string());
    assert_ne!(same_payload_int.tag(), same_payload_io.tag());
    assert_ne!(same_payload_int.describe(), same_payload_io.describe());

    let first = Bandage::Hint("one".to_string());
    let second = Bandage::Hint("two".to_string());
    assert_eq!(first.tag(), second.tag());
    assert_ne!(first.payload_message(), second.payload_message());
    assert_ne!(first.describe(), second.describe());
}

#[test]
fn windowing_and_gpu_tags_have_their_templates() {
    assert_eq!(
        Bandage::BadIcon("no pixels".to_string()).describe(),
        "Icon loading error: no pixels"
    );
    assert_eq!(
        Bandage::EventLoop("closed".to_string()).describe(),
        "Winit event loop error: closed"
    );
    assert_eq!(Bandage::WinOs("denied".to_string()).describe(), "OS error: denied");
    assert_eq!(
        Bandage::WinitIcon("too big".to_string()).describe(),
        "Winit icon error: too big"
    );
    assert_eq!(
        Bandage::WgpuSurface("lost".to_string()).describe(),
        "From wgpu: lost"
    );
    assert_eq!(
        Bandage::WgpuDevice("lost".to_string()).describe(),
        "From wgpu: lost"
    );
}

#[test]
fn user_build_field_names_are_carried_verbatim() {
    let e = Bandage::UserBuild {
        value: vec!["he\"llo".to_string()],
    };
    assert_eq!(e.describe(), "Value not provided for [\"he\"llo\"].");
}
