use rupamix::server_info::PulseServerInfo;

#[test]
fn server_info_starts_without_names() {
    let info = PulseServerInfo::default();

    assert_eq!(info.default_sink_name, "");
    assert_eq!(info.default_source_name, "");
}

#[test]
fn an_update_takes_over_both_names() {
    let mut info = PulseServerInfo::default();

    info.update("microphone", "speakers");
    assert_eq!(info.default_source_name, "microphone");
    assert_eq!(info.default_sink_name, "speakers");

    info.update("line in", "hdmi");
    assert_eq!(info.default_source_name, "line in");
    assert_eq!(info.default_sink_name, "hdmi");
}
