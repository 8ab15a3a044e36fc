use identity::page::{
    on_page_bus_event, MediaTags, PageBusAction, PageBusEvent, PageStatus, StatusNotifications,
};
use identity::playback::PipelineState;

fn video_page() -> PageStatus {
    PageStatus { is_loading: true, is_error: false, has_playbin: true }
}

fn ready() -> PageBusEvent {
    PageBusEvent::StateChanged { current: PipelineState::Paused, pending: PipelineState::VoidPending }
}

fn tags(list: &[(&str, Option<&str>)]) -> PageBusEvent {
    PageBusEvent::Tags(list.iter().map(|(n, v)| (n.to_string(), v.map(|v| v.to_string()))).collect())
}

#[test]
fn errors_are_final() {
    let mut s = video_page();
    assert_eq!(s.page_name(), "loading");
    assert_eq!(
        s.set_error(),
        StatusNotifications { is_loading: true, is_error: true, playbin: true }
    );
    assert_eq!(s, PageStatus { is_loading: false, is_error: true, has_playbin: false });
    assert_eq!(s.page_name(), "error");
    assert_eq!(
        s.set_error(),
        StatusNotifications { is_loading: false, is_error: false, playbin: false }
    );
    assert!(!s.prerolled());
    assert_eq!(s.page_name(), "error");
}

#[test]
fn preroll_ends_loading_once() {
    let mut s = video_page();
    let mut m = MediaTags::new();
    assert_eq!(on_page_bus_event(&mut s, &mut m, ready()), PageBusAction::ShowContent);
    assert_eq!(s.page_name(), "content");
    assert_eq!(on_page_bus_event(&mut s, &mut m, ready()), PageBusAction::Nothing);
    let busy = PageBusEvent::StateChanged { current: PipelineState::Ready, pending: PipelineState::Paused };
    let mut t = video_page();
    assert_eq!(on_page_bus_event(&mut t, &mut m, busy), PageBusAction::Nothing);
    assert!(t.is_loading);
    // An error after loading notifies only the error, and releases the pipeline.
    assert_eq!(
        on_page_bus_event(&mut s, &mut m, PageBusEvent::Error),
        PageBusAction::ShowError {
            notifications: StatusNotifications { is_loading: false, is_error: true, playbin: true }
        }
    );
    assert!(!s.has_playbin);
}

#[test]
fn images_finish_loading() {
    let mut s = PageStatus::new();
    s.image_loaded();
    assert_eq!(s, PageStatus { is_loading: false, is_error: false, has_playbin: false });
}

#[test]
fn failed_pages_never_show_content() {
    let mut s = video_page();
    let mut m = MediaTags::new();
    s.set_error();
    assert_eq!(on_page_bus_event(&mut s, &mut m, ready()), PageBusAction::Nothing);
    assert_eq!(on_page_bus_event(&mut s, &mut m, PageBusEvent::Error), PageBusAction::Nothing);
    assert_eq!(s, PageStatus { is_loading: false, is_error: true, has_playbin: false });
}

#[test]
fn pages_without_a_pipeline_ignore_the_bus() {
    let mut s = PageStatus::new();
    let mut m = MediaTags::new();
    assert_eq!(on_page_bus_event(&mut s, &mut m, PageBusEvent::Error), PageBusAction::Nothing);
    assert_eq!(on_page_bus_event(&mut s, &mut m, ready()), PageBusAction::Nothing);
    assert_eq!(
        on_page_bus_event(&mut s, &mut m, tags(&[("video-codec", Some("AV1"))])),
        PageBusAction::Nothing
    );
    assert_eq!(s, PageStatus::new());
    assert_eq!(m, MediaTags::new());
}

#[test]
fn codec_and_container_tags_are_read() {
    let mut s = video_page();
    let mut m = MediaTags::new();
    let ev = tags(&[
        ("title", Some("Moon")),
        ("video-codec", Some("H.264")),
        ("container-format", Some("Quicktime")),
        ("video-codec", Some("H.264 (High Profile)")),
        ("container-format", None),
    ]);
    assert_eq!(
        on_page_bus_event(&mut s, &mut m, ev),
        PageBusAction::TagsRead { video_codec: true, container_format: true }
    );
    assert_eq!(m.video_codec.as_deref(), Some("H.264 (High Profile)"));
    assert_eq!(m.container_format.as_deref(), Some("Quicktime"));
    assert_eq!(s, video_page());
}

#[test]
fn other_tags_change_nothing() {
    let mut s = video_page();
    let mut m = MediaTags { video_codec: Some("VP9".to_string()), container_format: None };
    let ev = tags(&[("title", Some("x")), ("audio-codec", Some("Opus")), ("video-codec", None)]);
    assert_eq!(
        on_page_bus_event(&mut s, &mut m, ev),
        PageBusAction::TagsRead { video_codec: false, container_format: false }
    );
    assert_eq!(m, MediaTags { video_codec: Some("VP9".to_string()), container_format: None });
}
