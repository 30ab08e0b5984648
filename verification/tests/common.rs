use acter_core::common::{
    duration_from_secs, new_calendar_event_ref_builder, new_colorize_builder,
    new_link_ref_builder, new_obj_ref_builder, new_task_list_ref_builder, new_task_ref_builder,
    new_thumb_size, ColorizeBuilder, DeviceRecord, Duration, FfiOption, MediaFormat, Position,
    RefDetailsBuilder, ThumbnailMethod, ThumbnailSize, MAX_SAFE_UINT,
};
use acter_core::content::{
    AttachmentContent, AudioDetails, LocationContent, MediaContent, MediaInfo, MediaSource,
    MsgContent, RefDetails, TextContent, ThumbnailInfo, TimelineEventContent,
};
use acter_core::error::CoreError;

fn info() -> MediaInfo {
    MediaInfo {
        mimetype: Some("image/jpeg".to_owned()),
        size: Some(3_264_047),
        width: Some(3840),
        height: Some(5760),
        duration: Some(61),
        thumbnail_source: Some(MediaSource::Encrypted("mxc://acter.global/thumb".to_owned())),
        thumbnail_info: Some(ThumbnailInfo {
            mimetype: Some("image/jpeg".to_owned()),
            size: Some(130_511),
            width: Some(400),
            height: Some(600),
        }),
        blurhash: Some("TQF=,g?uIo},={X5$c#+V@t2sRjF".to_owned()),
    }
}

fn sound() -> AudioDetails {
    AudioDetails { duration: 61_500, waveform: vec![0, 512, 1024] }
}

fn plain() -> MediaSource {
    MediaSource::Plain("mxc://acter.global/file".to_owned())
}

fn all_kinds() -> Vec<(&'static str, MsgContent)> {
    vec![
        (
            "text",
            MsgContent::Text { body: "b".to_owned(), formatted_body: Some("<b>b</b>".to_owned()) },
        ),
        ("image", MsgContent::Image { body: "b".to_owned(), source: plain(), info: Some(info()) }),
        (
            "audio",
            MsgContent::Audio {
                body: "b".to_owned(),
                source: plain(),
                info: Some(info()),
                audio: Some(sound()),
            },
        ),
        ("video", MsgContent::Video { body: "b".to_owned(), source: plain(), info: Some(info()) }),
        (
            "file",
            MsgContent::File {
                body: "b".to_owned(),
                source: plain(),
                info: Some(info()),
                filename: Some("f.bin".to_owned()),
            },
        ),
        (
            "location",
            MsgContent::Location {
                body: "b".to_owned(),
                geo_uri: "geo:1,2".to_owned(),
                info: Some(info()),
            },
        ),
    ]
}

fn has(kind: &str, kinds: &[&str]) -> bool {
    kinds.contains(&kind)
}

#[test]
fn msg_content_getters_by_kind() {
    for (kind, msg) in all_kinds() {
        assert_eq!(msg.body(), "b");
        assert_eq!(msg.formatted_body().is_some(), kind == "text", "{kind}");
        assert_eq!(
            msg.source().map(|s| s.url()),
            has(kind, &["image", "audio", "video", "file"])
                .then(|| "mxc://acter.global/file".to_owned()),
            "{kind}"
        );
        let in_files = has(kind, &["image", "audio", "video", "file"]);
        assert_eq!(msg.mimetype(), in_files.then(|| "image/jpeg".to_owned()), "{kind}");
        assert_eq!(msg.size(), in_files.then_some(3_264_047), "{kind}");
        let in_pictures = has(kind, &["image", "video"]);
        assert_eq!(msg.width(), in_pictures.then_some(3840), "{kind}");
        assert_eq!(msg.height(), in_pictures.then_some(5760), "{kind}");
        assert_eq!(
            msg.blurhash(),
            in_pictures.then(|| "TQF=,g?uIo},={X5$c#+V@t2sRjF".to_owned()),
            "{kind}"
        );
        let with_thumbnail = has(kind, &["image", "video", "file", "location"]);
        assert_eq!(
            msg.thumbnail_source().map(|s| s.url()),
            with_thumbnail.then(|| "mxc://acter.global/thumb".to_owned()),
            "{kind}"
        );
        let thumbnail = msg.thumbnail_info();
        assert_eq!(thumbnail.is_some(), with_thumbnail, "{kind}");
        if let Some(t) = thumbnail {
            assert_eq!(t.mimetype(), Some("image/jpeg".to_owned()));
            assert_eq!(t.size(), Some(130_511));
            assert_eq!(t.width(), Some(400));
            assert_eq!(t.height(), Some(600));
        }
        assert_eq!(msg.duration(), has(kind, &["audio", "video"]).then_some(61), "{kind}");
        assert_eq!(msg.filename(), (kind == "file").then(|| "f.bin".to_owned()), "{kind}");
        assert_eq!(msg.geo_uri(), (kind == "location").then(|| "geo:1,2".to_owned()), "{kind}");
        assert_eq!(msg.audio().map(|a| a.duration), (kind == "audio").then_some(61_500), "{kind}");
        assert_eq!(msg.clone().body(), "b");
    }
}

#[test]
fn msg_content_without_info_knows_nothing() {
    let msg = MsgContent::Video { body: "b".to_owned(), source: plain(), info: None };
    assert_eq!(msg.mimetype(), None);
    assert_eq!(msg.size(), None);
    assert_eq!(msg.width(), None);
    assert_eq!(msg.height(), None);
    assert_eq!(msg.duration(), None);
    assert_eq!(msg.blurhash(), None);
    assert!(msg.thumbnail_source().is_none());
    assert!(msg.thumbnail_info().is_none());
    assert!(msg.source().is_some());
}

#[test]
fn msg_content_constructors() {
    let text = MsgContent::from_text("hello".to_owned());
    assert_eq!(text.body(), "hello");
    assert_eq!(text.formatted_body(), None);
    assert!(text.source().is_none());

    let image = MsgContent::from_image("pic".to_owned(), "mxc://x/y".to_owned());
    assert_eq!(image.body(), "pic");
    match image.source() {
        Some(MediaSource::Plain(url)) => assert_eq!(url, "mxc://x/y"),
        other => panic!("plain source expected, got {:?}", other),
    }
    assert_eq!(image.mimetype(), None);
    assert_eq!(image.width(), None);
    assert!(matches!(image, MsgContent::Image { info: Some(_), .. }));

    let from_text = MsgContent::from_text_content(&TextContent {
        body: "b".to_owned(),
        formatted_body: Some("<i>b</i>".to_owned()),
    });
    assert_eq!(from_text.formatted_body(), Some("<i>b</i>".to_owned()));
    let TimelineEventContent::Message(inner) = TimelineEventContent::Message(from_text);
    assert_eq!(inner.body(), "b");
}

#[test]
fn msg_content_from_attachment() {
    let media = || MediaContent {
        body: "b".to_owned(),
        source: plain(),
        info: Some(info()),
        filename: Some("f.bin".to_owned()),
        audio: Some(sound()),
    };
    let image = MsgContent::from_attachment(&AttachmentContent::Image(media())).unwrap();
    assert!(matches!(image, MsgContent::Image { .. }));
    assert_eq!(image.width(), Some(3840));
    let audio = MsgContent::from_attachment(&AttachmentContent::Audio(media())).unwrap();
    assert!(matches!(audio, MsgContent::Audio { .. }));
    assert_eq!(audio.duration(), Some(61));
    assert_eq!(audio.body(), "b");
    assert_eq!(audio.source().map(|s| s.url()), Some("mxc://acter.global/file".to_owned()));
    let details = audio.audio().expect("the details are handed on");
    assert_eq!(details.duration, 61_500);
    assert_eq!(details.waveform, vec![0, 512, 1024]);
    let silent = MediaContent { audio: None, ..media() };
    let audio = MsgContent::from_attachment(&AttachmentContent::Audio(silent)).unwrap();
    assert!(audio.audio().is_none());
    assert!(image.audio().is_none());
    let video = MsgContent::from_attachment(&AttachmentContent::Video(media())).unwrap();
    assert!(matches!(video, MsgContent::Video { .. }));
    let file = MsgContent::from_attachment(&AttachmentContent::File(media())).unwrap();
    assert_eq!(file.filename(), Some("f.bin".to_owned()));
    let location = MsgContent::from_attachment(&AttachmentContent::Location(LocationContent {
        body: "here".to_owned(),
        geo_uri: "geo:1,2".to_owned(),
        info: None,
    }))
    .unwrap();
    assert_eq!(location.geo_uri(), Some("geo:1,2".to_owned()));
    assert_eq!(location.body(), "here");
    let reference = AttachmentContent::Reference(RefDetails::Link {
        title: "t".to_owned(),
        uri: "u".to_owned(),
    });
    assert!(MsgContent::from_attachment(&reference).is_none());
    assert_eq!(reference.type_str(), "reference");
    assert_eq!(reference.name(), Some("t".to_owned()));
    assert_eq!(AttachmentContent::Audio(media()).type_str(), "audio");
    assert_eq!(AttachmentContent::Video(media()).type_str(), "video");
    assert_eq!(AttachmentContent::File(media()).type_str(), "file");
    assert_eq!(AttachmentContent::File(media()).name(), Some("b".to_owned()));
}

#[test]
fn media_source_url() {
    assert_eq!(MediaSource::Plain("mxc://a/b".to_owned()).url(), "mxc://a/b");
    assert_eq!(MediaSource::Encrypted("mxc://c/d".to_owned()).url(), "mxc://c/d");
}

#[test]
fn durations_and_options() {
    assert_eq!(duration_from_secs(90), Duration { secs: 90, nanos: 0 });
    assert_eq!(duration_from_secs(0), Duration { secs: 0, nanos: 0 });
    assert_eq!(duration_from_secs(u64::MAX).secs, u64::MAX);
    let some = FfiOption::new(Some("x".to_owned()));
    assert_eq!(some.inner(), Some("x".to_owned()));
    assert_eq!(some.inner(), Some("x".to_owned()));
    let none: FfiOption<Vec<u8>> = FfiOption::new(None);
    assert_eq!(none.inner(), None);
}

#[test]
fn thumbnail_sizes_must_fit_the_wire() {
    let size = new_thumb_size(400, 600).expect("fits");
    assert_eq!(size.width(), 400);
    assert_eq!(size.height(), 600);
    let largest = ThumbnailSize::new(MAX_SAFE_UINT, MAX_SAFE_UINT).expect("fits");
    assert_eq!(largest.width(), 9_007_199_254_740_991);
    assert_eq!(new_thumb_size(MAX_SAFE_UINT + 1, 1).err(), Some(CoreError::InvalidThumbnailWidth));
    assert_eq!(new_thumb_size(1, MAX_SAFE_UINT + 1).err(), Some(CoreError::InvalidThumbnailHeight));
    assert_eq!(new_thumb_size(u64::MAX, u64::MAX).err(), Some(CoreError::InvalidThumbnailWidth));
    assert_eq!(CoreError::InvalidThumbnailWidth.message(), "invalid thumbnail width");
    assert_eq!(CoreError::InvalidThumbnailHeight.message(), "invalid thumbnail height");
}

#[test]
fn media_format_of_a_thumbnail_size() {
    assert_eq!(ThumbnailSize::parse_into_media_format(None), MediaFormat::File);
    let size = Box::new(new_thumb_size(64, 48).unwrap());
    let scaled = MediaFormat::Thumbnail { method: ThumbnailMethod::Scale, width: 64, height: 48 };
    assert_eq!(ThumbnailSize::parse_into_media_format(Some(size.clone())), scaled);
    assert_eq!(MediaFormat::from(size), scaled);
}

#[test]
fn colorize_builder() {
    assert_eq!(
        new_colorize_builder(Some(0xff00ff), None),
        Ok(ColorizeBuilder { color: Some(0xff00ff), background: None })
    );
    assert_eq!(
        new_colorize_builder(None, Some(7)),
        Ok(ColorizeBuilder { color: None, background: Some(7) })
    );
    let mut builder = new_colorize_builder(None, None).unwrap();
    assert_eq!(builder, ColorizeBuilder { color: None, background: None });
    builder.color(1);
    builder.background(2);
    assert_eq!(builder, ColorizeBuilder { color: Some(1), background: Some(2) });
}

#[test]
fn reference_builders_check_their_ids() {
    let task = new_task_ref_builder(
        "$task".to_owned(),
        Some("!room:example.org".to_owned()),
        "$list".to_owned(),
        None,
    )
    .expect("valid ids")
    .build();
    match task {
        RefDetails::Task { target_id, room_id, task_list, action } => {
            assert_eq!(target_id, "$task");
            assert_eq!(room_id, Some("!room:example.org".to_owned()));
            assert_eq!(task_list, "$list");
            assert_eq!(action, None);
        }
        other => panic!("task reference expected, got {:?}", other),
    }
    assert_eq!(
        new_task_ref_builder("task".to_owned(), None, "$list".to_owned(), None).err(),
        Some(CoreError::InvalidId)
    );
    assert_eq!(
        new_task_ref_builder("$task".to_owned(), None, "list".to_owned(), None).err(),
        Some(CoreError::InvalidId)
    );

    let list = new_task_list_ref_builder("$list".to_owned(), None, Some("link".to_owned()))
        .expect("valid id")
        .build();
    match list {
        RefDetails::TaskList { target_id, room_id, action } => {
            assert_eq!(target_id, "$list");
            assert_eq!(room_id, None);
            assert_eq!(action, Some("link".to_owned()));
        }
        other => panic!("task list reference expected, got {:?}", other),
    }
    assert_eq!(
        new_task_list_ref_builder("list".to_owned(), None, None).err(),
        Some(CoreError::InvalidId)
    );

    let event = new_calendar_event_ref_builder(
        "$event".to_owned(),
        Some("!r:example.org".to_owned()),
        Some("embed".to_owned()),
    )
    .expect("valid id")
    .build();
    match event {
        RefDetails::CalendarEvent { target_id, room_id, action } => {
            assert_eq!(target_id, "$event");
            assert_eq!(room_id, Some("!r:example.org".to_owned()));
            assert_eq!(action, Some("embed".to_owned()));
        }
        other => panic!("calendar event reference expected, got {:?}", other),
    }
    assert_eq!(
        new_calendar_event_ref_builder("".to_owned(), None, None).err(),
        Some(CoreError::InvalidId)
    );
}

#[test]
fn link_builder_ignores_room_and_action() {
    let mut builder =
        new_link_ref_builder("Acter".to_owned(), "https://acter.global".to_owned()).unwrap();
    builder.room_id("!r:example.org".to_owned());
    builder.action("embed".to_owned());
    match builder.build() {
        RefDetails::Link { title, uri } => {
            assert_eq!(title, "Acter");
            assert_eq!(uri, "https://acter.global");
        }
        other => panic!("link expected, got {:?}", other),
    }
    let mut task = RefDetailsBuilder::new_task_ref_builder("$t".to_owned(), "$l".to_owned());
    task.options(None, Some("link".to_owned()));
    assert!(matches!(
        task.build(),
        RefDetails::Task { room_id: None, action: Some(a), .. } if a == "link"
    ));
}

#[test]
fn object_reference_reads_its_position() {
    let link = || Box::new(RefDetails::Link { title: "t".to_owned(), uri: "u".to_owned() });
    let names = [
        ("top-left", Position::TopLeft),
        ("top-middle", Position::TopMiddle),
        ("top-right", Position::TopRight),
        ("center-left", Position::CenterLeft),
        ("center-middle", Position::CenterMiddle),
        ("center-right", Position::CenterRight),
        ("bottom-left", Position::BottomLeft),
        ("bottom-middle", Position::BottomMiddle),
        ("bottom-right", Position::BottomRight),
    ];
    for (name, position) in names {
        assert_eq!(Position::from_str(name), Some(position));
        let builder = new_obj_ref_builder(Some(name.to_owned()), link()).unwrap();
        assert_eq!(builder.position, Some(position));
        assert!(matches!(builder.reference, RefDetails::Link { .. }));
    }
    assert_eq!(new_obj_ref_builder(Some("middle".to_owned()), link()).unwrap().position, None);
    assert_eq!(new_obj_ref_builder(Some("Top-Left".to_owned()), link()).unwrap().position, None);
    assert_eq!(new_obj_ref_builder(None, link()).unwrap().position, None);
}

#[test]
fn device_record_getters() {
    let record = DeviceRecord::new(
        "DEVICE".to_owned(),
        Some("My phone".to_owned()),
        Some(1_700_000_000_000),
        Some("10.0.0.1".to_owned()),
        true,
        false,
        true,
    );
    assert_eq!(record.device_id(), "DEVICE");
    assert_eq!(record.display_name(), Some("My phone".to_owned()));
    assert_eq!(record.last_seen_ts(), Some(1_700_000_000_000));
    assert_eq!(record.last_seen_ip(), Some("10.0.0.1".to_owned()));
    assert!(record.is_verified());
    assert!(!record.is_active());
    assert!(record.is_me());
    assert_eq!(record.clone().device_id(), "DEVICE");
}
