use cargo_clone::args::Color;
use cargo_clone::decimal::u64_to_dec;
use cargo_clone::errors::CloneError;
use cargo_clone::session::Cloner;
use cargo_clone::source::{CargoSource, ClonerSource};

#[test]
fn decimal_rendering() {
    assert_eq!("0", u64_to_dec(0));
    assert_eq!("7", u64_to_dec(7));
    assert_eq!("10", u64_to_dec(10));
    assert_eq!("907", u64_to_dec(907));
    assert_eq!("18446744073709551615", u64_to_dec(u64::MAX));
}

#[test]
fn io_errors_carry_their_report() {
    let e = CloneError::Io { message: String::from("permission denied while copying") };
    assert_eq!("permission denied while copying", e.message());
}

#[test]
fn color_labels() {
    assert_eq!("auto", Color::Auto.label());
    assert_eq!("always", Color::Always.label());
    assert_eq!("never", Color::Never.label());
}

#[test]
fn sources_choose_their_kind() {
    assert!(matches!(ClonerSource::crates_io().cargo_source, CargoSource::CratesIo));
    assert!(matches!(
        ClonerSource::registry(String::from("mine")).cargo_source,
        CargoSource::Registry { .. }
    ));
    assert!(matches!(
        ClonerSource::local_registry(String::from("reg")).cargo_source,
        CargoSource::LocalRegistry { .. }
    ));
    match ClonerSource::index("https://example.com/index").unwrap().cargo_source {
        CargoSource::Index { url } => assert_eq!(url.as_str(), "https://example.com/index"),
        _ => panic!("expected an index source"),
    }
    let e = ClonerSource::index("::::").unwrap_err();
    assert!(matches!(e, CloneError::InvalidSourceConfig { .. }));
}

#[test]
fn builder_anchors_a_local_registry_and_defaults_the_directory() {
    let cloner = Cloner::builder()
        .with_source(ClonerSource::local_registry(String::from("registry")))
        .build("/work")
        .unwrap();
    assert_eq!(cloner.directory.as_str(), "/work");
    match &cloner.source {
        CargoSource::LocalRegistry { path } => assert_eq!(path.as_str(), "/work/registry"),
        _ => panic!("expected a local registry source"),
    }
    assert!(!cloner.use_git);

    let cloner = Cloner::builder()
        .with_directory(String::from("somewhere"))
        .with_git(true)
        .build("/work")
        .unwrap();
    assert_eq!(cloner.directory.as_str(), "somewhere");
    assert!(cloner.use_git);
}
