use tau_radio::args::Args;
use tau_radio::audio::{select_device, DeviceLookupError};
use tau_radio::config::Config;
use tau_radio::shutdown::ShutdownSignal;
use tau_radio::util::{format_filename, make_filename};

fn stored_config() -> Config {
    Config {
        username: String::from("dj"),
        password: String::from("opensesame"),
        ip: String::from("127.0.0.1"),
        port: 8000,
        broadcast_port: 8001,
        audio_interface: String::from("pipewire"),
        file: None,
    }
}

fn empty_args() -> Args {
    Args {
        username: None,
        password: None,
        ip: None,
        port: None,
        file: None,
        no_recording: false,
        output: None,
        reset_config: false,
    }
}

#[test]
fn merge_keeps_stored_values_when_no_arguments_are_given() {
    let merged = stored_config().merge_cli_args(&empty_args());
    assert_eq!(merged.username, "dj");
    assert_eq!(merged.ip, "127.0.0.1");
    assert_eq!(merged.port, 8000);
    assert_eq!(merged.broadcast_port, 8001);
    assert_eq!(merged.audio_interface, "pipewire");
    assert!(merged.file.is_none());
}

#[test]
fn merge_prefers_every_given_argument() {
    let mut args = empty_args();
    args.username = Some(String::from("mc"));
    args.password = Some(String::from("opensesame"));
    args.ip = Some(String::from("10.1.1.1"));
    args.port = Some(9000);
    args.file = Some(String::from("show"));
    let merged = stored_config().merge_cli_args(&args);
    assert_eq!(merged.username, "mc");
    assert_eq!(merged.ip, "10.1.1.1");
    assert_eq!(merged.port, 9000);
    assert_eq!(merged.file.as_deref(), Some("show"));
    // Fields with no corresponding argument are untouched.
    assert_eq!(merged.broadcast_port, 8001);
    assert_eq!(merged.audio_interface, "pipewire");
}

#[test]
fn custom_filename_gets_the_container_extension() {
    let name = format_filename(Some(String::from("session")));
    assert_eq!(name, "session.ogg");
}

#[test]
fn generated_filename_carries_prefix_and_extension() {
    let name = format_filename(None);
    assert!(name.starts_with("tau_"));
    assert!(name.ends_with(".ogg"));
    assert!(name.len() >= 8);
}

#[test]
fn generated_filename_embeds_the_tag() {
    let name = make_filename(None, String::from("01-02-2026_12_30_00"));
    assert_eq!(name, "tau_01-02-2026_12_30_00.ogg");
}

#[test]
fn select_device_finds_the_first_match() {
    let names = vec![
        String::from("monitor"),
        String::from("pipewire"),
        String::from("pipewire"),
    ];
    let r = select_device(&names, &String::from("pipewire"), &String::from("pipewire"));
    assert_eq!(r, Ok(1));
}

#[test]
fn missing_default_driver_is_its_own_error() {
    let names = vec![String::from("monitor")];
    let r = select_device(&names, &String::from("pipewire"), &String::from("pipewire"));
    assert_eq!(r, Err(DeviceLookupError::DefaultDriverMissing));
}

#[test]
fn missing_named_interface_is_reported_as_not_found() {
    let names = vec![String::from("monitor")];
    let r = select_device(&names, &String::from("usb-mic"), &String::from("pipewire"));
    assert_eq!(r, Err(DeviceLookupError::InterfaceNotFound));
}

#[test]
fn shutdown_signal_is_monotonic() {
    let mut sig = ShutdownSignal::new();
    assert!(!sig.is_set());
    sig.request();
    assert!(sig.is_set());
    sig.request();
    assert!(sig.is_set());
}
