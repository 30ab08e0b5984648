//! Message-like payloads that events carry: text, media, locations and references.

use vstd::prelude::*;

verus! {

/// A text with an optional formatted rendering.
#[derive(Debug)]
pub struct TextContent {
    pub body: String,
    pub formatted_body: Option<String>,
}

/// Mathematical model of a [`TextContent`].
pub struct TextContentView {
    pub body: Seq<char>,
    pub formatted_body: Option<Seq<char>>,
}

impl View for TextContent {
    type V = TextContentView;

    open spec fn view(&self) -> TextContentView {
        TextContentView { body: self.body@, formatted_body: self.formatted_body.deep_view() }
    }
}

impl DeepView for TextContent {
    type V = TextContentView;

    open spec fn deep_view(&self) -> TextContentView {
        self@
    }
}

impl Clone for TextContent {
    fn clone(&self) -> (res: Self)
        ensures
            res@ == self@,
    {
        TextContent { body: self.body.clone(), formatted_body: self.formatted_body.clone() }
    }
}

/// Where a piece of media can be fetched from.
#[derive(Debug)]
pub enum MediaSource {
    /// An unencrypted file at this URL.
    Plain(String),
    /// An encrypted file at this URL.
    Encrypted(String),
}

/// Mathematical model of a [`MediaSource`].
pub enum MediaSourceView {
    Plain(Seq<char>),
    Encrypted(Seq<char>),
}

impl MediaSourceView {
    /// The URL of the file, encrypted or not.
    pub open spec fn url(self) -> Seq<char> {
        match self {
            MediaSourceView::Plain(url) => url,
            MediaSourceView::Encrypted(url) => url,
        }
    }
}

impl View for MediaSource {
    type V = MediaSourceView;

    open spec fn view(&self) -> MediaSourceView {
        match self {
            MediaSource::Plain(url) => MediaSourceView::Plain(url@),
            MediaSource::Encrypted(url) => MediaSourceView::Encrypted(url@),
        }
    }
}

impl DeepView for MediaSource {
    type V = MediaSourceView;

    open spec fn deep_view(&self) -> MediaSourceView {
        self@
    }
}

impl Clone for MediaSource {
    fn clone(&self) -> (res: Self)
        ensures
            res@ == self@,
    {
        match self {
            MediaSource::Plain(url) => MediaSource::Plain(url.clone()),
            MediaSource::Encrypted(url) => MediaSource::Encrypted(url.clone()),
        }
    }
}

impl MediaSource {
    /// The URL of the file, encrypted or not.
    pub fn url(&self) -> (res: String)
        ensures
            res@ == self@.url(),
    {
        match self {
            MediaSource::Plain(url) => url.clone(),
            MediaSource::Encrypted(url) => url.clone(),
        }
    }
}

/// What is known about a thumbnail.
#[derive(Debug)]
pub struct ThumbnailInfo {
    pub mimetype: Option<String>,
    pub size: Option<u64>,
    pub width: Option<u64>,
    pub height: Option<u64>,
}

/// Mathematical model of a [`ThumbnailInfo`].
pub struct ThumbnailInfoView {
    pub mimetype: Option<Seq<char>>,
    pub size: Option<u64>,
    pub width: Option<u64>,
    pub height: Option<u64>,
}

impl View for ThumbnailInfo {
    type V = ThumbnailInfoView;

    open spec fn view(&self) -> ThumbnailInfoView {
        ThumbnailInfoView {
            mimetype: self.mimetype.deep_view(),
            size: self.size,
            width: self.width,
            height: self.height,
        }
    }
}

impl DeepView for ThumbnailInfo {
    type V = ThumbnailInfoView;

    open spec fn deep_view(&self) -> ThumbnailInfoView {
        self@
    }
}

impl Clone for ThumbnailInfo {
    fn clone(&self) -> (res: Self)
        ensures
            res@ == self@,
    {
        ThumbnailInfo {
            mimetype: self.mimetype.clone(),
            size: self.size,
            width: self.width,
            height: self.height,
        }
    }
}

impl ThumbnailInfo {
    pub fn mimetype(&self) -> (res: Option<String>)
        ensures
            res.deep_view() == self@.mimetype,
    {
        self.mimetype.clone()
    }

    pub fn size(&self) -> (res: Option<u64>)
        ensures
            res == self@.size,
    {
        self.size
    }

    pub fn width(&self) -> (res: Option<u64>)
        ensures
            res == self@.width,
    {
        self.width
    }

    pub fn height(&self) -> (res: Option<u64>)
        ensures
            res == self@.height,
    {
        self.height
    }
}

/// What is known about a media file. A field that does not apply to a kind of media is `None`.
#[derive(Debug)]
pub struct MediaInfo {
    pub mimetype: Option<String>,
    pub size: Option<u64>,
    pub width: Option<u64>,
    pub height: Option<u64>,
    /// Playing time in whole seconds.
    pub duration: Option<u64>,
    pub thumbnail_source: Option<MediaSource>,
    pub thumbnail_info: Option<ThumbnailInfo>,
    pub blurhash: Option<String>,
}

/// Mathematical model of a [`MediaInfo`].
pub struct MediaInfoView {
    pub mimetype: Option<Seq<char>>,
    pub size: Option<u64>,
    pub width: Option<u64>,
    pub height: Option<u64>,
    pub duration: Option<u64>,
    pub thumbnail_source: Option<MediaSourceView>,
    pub thumbnail_info: Option<ThumbnailInfoView>,
    pub blurhash: Option<Seq<char>>,
}

impl View for MediaInfo {
    type V = MediaInfoView;

    open spec fn view(&self) -> MediaInfoView {
        MediaInfoView {
            mimetype: self.mimetype.deep_view(),
            size: self.size,
            width: self.width,
            height: self.height,
            duration: self.duration,
            thumbnail_source: self.thumbnail_source.deep_view(),
            thumbnail_info: self.thumbnail_info.deep_view(),
            blurhash: self.blurhash.deep_view(),
        }
    }
}

impl DeepView for MediaInfo {
    type V = MediaInfoView;

    open spec fn deep_view(&self) -> MediaInfoView {
        self@
    }
}

impl Clone for MediaInfo {
    fn clone(&self) -> (res: Self)
        ensures
            res@ == self@,
    {
        MediaInfo {
            mimetype: self.mimetype.clone(),
            size: self.size,
            width: self.width,
            height: self.height,
            duration: self.duration,
            thumbnail_source: self.thumbnail_source.clone(),
            thumbnail_info: self.thumbnail_info.clone(),
            blurhash: self.blurhash.clone(),
        }
    }
}

/// How a piece of audio sounds: how long it plays and the shape of its wave.
#[derive(Debug)]
pub struct AudioDetails {
    /// Playing time in milliseconds.
    pub duration: u64,
    /// The loudness of the samples of the wave, each between 0 and 1024; empty where the
    /// wave is not given.
    pub waveform: Vec<u16>,
}

/// Mathematical model of an [`AudioDetails`].
pub struct AudioDetailsView {
    pub duration: u64,
    pub waveform: Seq<u16>,
}

impl View for AudioDetails {
    type V = AudioDetailsView;

    open spec fn view(&self) -> AudioDetailsView {
        AudioDetailsView { duration: self.duration, waveform: self.waveform@ }
    }
}

impl DeepView for AudioDetails {
    type V = AudioDetailsView;

    open spec fn deep_view(&self) -> AudioDetailsView {
        self@
    }
}

impl Clone for AudioDetails {
    fn clone(&self) -> (res: Self)
        ensures
            res@ == self@,
    {
        let waveform = self.waveform.clone();
        assert(waveform@ =~= self.waveform@);
        AudioDetails { duration: self.duration, waveform }
    }
}

/// A media file with its caption. The name of the file is kept for files and the audio
/// details for audio; the other kinds of media have neither.
#[derive(Debug)]
pub struct MediaContent {
    pub body: String,
    pub source: MediaSource,
    pub info: Option<MediaInfo>,
    pub filename: Option<String>,
    pub audio: Option<AudioDetails>,
}

/// Mathematical model of a [`MediaContent`].
pub struct MediaContentView {
    pub body: Seq<char>,
    pub source: MediaSourceView,
    pub info: Option<MediaInfoView>,
    pub filename: Option<Seq<char>>,
    pub audio: Option<AudioDetailsView>,
}

impl View for MediaContent {
    type V = MediaContentView;

    open spec fn view(&self) -> MediaContentView {
        MediaContentView {
            body: self.body@,
            source: self.source@,
            info: self.info.deep_view(),
            filename: self.filename.deep_view(),
            audio: self.audio.deep_view(),
        }
    }
}

impl DeepView for MediaContent {
    type V = MediaContentView;

    open spec fn deep_view(&self) -> MediaContentView {
        self@
    }
}

impl Clone for MediaContent {
    fn clone(&self) -> (res: Self)
        ensures
            res@ == self@,
    {
        MediaContent {
            body: self.body.clone(),
            source: self.source.clone(),
            info: self.info.clone(),
            filename: self.filename.clone(),
            audio: self.audio.clone(),
        }
    }
}

/// A place, given as a `geo:` URI, with its caption.
#[derive(Debug)]
pub struct LocationContent {
    pub body: String,
    pub geo_uri: String,
    pub info: Option<MediaInfo>,
}

/// Mathematical model of a [`LocationContent`].
pub struct LocationContentView {
    pub body: Seq<char>,
    pub geo_uri: Seq<char>,
    pub info: Option<MediaInfoView>,
}

impl View for LocationContent {
    type V = LocationContentView;

    open spec fn view(&self) -> LocationContentView {
        LocationContentView {
            body: self.body@,
            geo_uri: self.geo_uri@,
            info: self.info.deep_view(),
        }
    }
}

impl DeepView for LocationContent {
    type V = LocationContentView;

    open spec fn deep_view(&self) -> LocationContentView {
        self@
    }
}

impl Clone for LocationContent {
    fn clone(&self) -> (res: Self)
        ensures
            res@ == self@,
    {
        LocationContent {
            body: self.body.clone(),
            geo_uri: self.geo_uri.clone(),
            info: self.info.clone(),
        }
    }
}

/// A pointer to another object, or to a place on the web.
#[derive(Debug)]
pub enum RefDetails {
    Task { target_id: String, room_id: Option<String>, task_list: String, action: Option<String> },
    TaskList { target_id: String, room_id: Option<String>, action: Option<String> },
    CalendarEvent { target_id: String, room_id: Option<String>, action: Option<String> },
    Link { title: String, uri: String },
}

/// Mathematical model of a [`RefDetails`].
pub enum RefDetailsView {
    Task {
        target_id: Seq<char>,
        room_id: Option<Seq<char>>,
        task_list: Seq<char>,
        action: Option<Seq<char>>,
    },
    TaskList { target_id: Seq<char>, room_id: Option<Seq<char>>, action: Option<Seq<char>> },
    CalendarEvent { target_id: Seq<char>, room_id: Option<Seq<char>>, action: Option<Seq<char>> },
    Link { title: Seq<char>, uri: Seq<char> },
}

impl View for RefDetails {
    type V = RefDetailsView;

    open spec fn view(&self) -> RefDetailsView {
        match self {
            RefDetails::Task { target_id, room_id, task_list, action } => RefDetailsView::Task {
                target_id: target_id@,
                room_id: room_id.deep_view(),
                task_list: task_list@,
                action: action.deep_view(),
            },
            RefDetails::TaskList { target_id, room_id, action } => RefDetailsView::TaskList {
                target_id: target_id@,
                room_id: room_id.deep_view(),
                action: action.deep_view(),
            },
            RefDetails::CalendarEvent { target_id, room_id, action } => {
                RefDetailsView::CalendarEvent {
                    target_id: target_id@,
                    room_id: room_id.deep_view(),
                    action: action.deep_view(),
                }
            },
            RefDetails::Link { title, uri } => RefDetailsView::Link { title: title@, uri: uri@ },
        }
    }
}

impl DeepView for RefDetails {
    type V = RefDetailsView;

    open spec fn deep_view(&self) -> RefDetailsView {
        self@
    }
}

impl Clone for RefDetails {
    fn clone(&self) -> (res: Self)
        ensures
            res@ == self@,
    {
        match self {
            RefDetails::Task { target_id, room_id, task_list, action } => RefDetails::Task {
                target_id: target_id.clone(),
                room_id: room_id.clone(),
                task_list: task_list.clone(),
                action: action.clone(),
            },
            RefDetails::TaskList { target_id, room_id, action } => RefDetails::TaskList {
                target_id: target_id.clone(),
                room_id: room_id.clone(),
                action: action.clone(),
            },
            RefDetails::CalendarEvent { target_id, room_id, action } => RefDetails::CalendarEvent {
                target_id: target_id.clone(),
                room_id: room_id.clone(),
                action: action.clone(),
            },
            RefDetails::Link { title, uri } => RefDetails::Link {
                title: title.clone(),
                uri: uri.clone(),
            },
        }
    }
}

impl RefDetailsView {
    /// The title of what is pointed to, where the reference itself carries one.
    pub open spec fn title(self) -> Option<Seq<char>> {
        match self {
            RefDetailsView::Link { title, .. } => Some(title),
            _ => None,
        }
    }
}

impl RefDetails {
    /// The title of what is pointed to, where the reference itself carries one.
    pub fn title(&self) -> (res: Option<String>)
        ensures
            res.deep_view() == self@.title(),
    {
        match self {
            RefDetails::Link { title, .. } => Some(title.clone()),
            _ => None,
        }
    }
}

/// What an attachment holds.
#[derive(Debug)]
pub enum AttachmentContent {
    Image(MediaContent),
    Audio(MediaContent),
    Video(MediaContent),
    File(MediaContent),
    Location(LocationContent),
    Reference(RefDetails),
}

/// Mathematical model of an [`AttachmentContent`].
pub enum AttachmentContentView {
    Image(MediaContentView),
    Audio(MediaContentView),
    Video(MediaContentView),
    File(MediaContentView),
    Location(LocationContentView),
    Reference(RefDetailsView),
}

impl View for AttachmentContent {
    type V = AttachmentContentView;

    open spec fn view(&self) -> AttachmentContentView {
        match self {
            AttachmentContent::Image(c) => AttachmentContentView::Image(c@),
            AttachmentContent::Audio(c) => AttachmentContentView::Audio(c@),
            AttachmentContent::Video(c) => AttachmentContentView::Video(c@),
            AttachmentContent::File(c) => AttachmentContentView::File(c@),
            AttachmentContent::Location(c) => AttachmentContentView::Location(c@),
            AttachmentContent::Reference(r) => AttachmentContentView::Reference(r@),
        }
    }
}

impl DeepView for AttachmentContent {
    type V = AttachmentContentView;

    open spec fn deep_view(&self) -> AttachmentContentView {
        self@
    }
}

impl Clone for AttachmentContent {
    fn clone(&self) -> (res: Self)
        ensures
            res@ == self@,
    {
        match self {
            AttachmentContent::Image(c) => AttachmentContent::Image(c.clone()),
            AttachmentContent::Audio(c) => AttachmentContent::Audio(c.clone()),
            AttachmentContent::Video(c) => AttachmentContent::Video(c.clone()),
            AttachmentContent::File(c) => AttachmentContent::File(c.clone()),
            AttachmentContent::Location(c) => AttachmentContent::Location(c.clone()),
            AttachmentContent::Reference(r) => AttachmentContent::Reference(r.clone()),
        }
    }
}

impl AttachmentContentView {
    /// The tag of the attachment's kind.
    pub open spec fn kind_tag(self) -> Seq<char> {
        match self {
            AttachmentContentView::Image(_) => "image"@,
            AttachmentContentView::Audio(_) => "audio"@,
            AttachmentContentView::Video(_) => "video"@,
            AttachmentContentView::File(_) => "file"@,
            AttachmentContentView::Location(_) => "location"@,
            AttachmentContentView::Reference(_) => "reference"@,
        }
    }

    /// The name to show for the attachment: the caption of a file or place, the title of a
    /// reference that has one.
    pub open spec fn name(self) -> Option<Seq<char>> {
        match self {
            AttachmentContentView::Image(c) => Some(c.body),
            AttachmentContentView::Audio(c) => Some(c.body),
            AttachmentContentView::Video(c) => Some(c.body),
            AttachmentContentView::File(c) => Some(c.body),
            AttachmentContentView::Location(c) => Some(c.body),
            AttachmentContentView::Reference(r) => r.title(),
        }
    }
}

impl AttachmentContent {
    /// The tag of the attachment's kind.
    pub fn type_str(&self) -> (res: String)
        ensures
            res@ == self@.kind_tag(),
    {
        match self {
            AttachmentContent::Image(_) => "image".to_owned(),
            AttachmentContent::Audio(_) => "audio".to_owned(),
            AttachmentContent::Video(_) => "video".to_owned(),
            AttachmentContent::File(_) => "file".to_owned(),
            AttachmentContent::Location(_) => "location".to_owned(),
            AttachmentContent::Reference(_) => "reference".to_owned(),
        }
    }

    /// The name to show for the attachment.
    pub fn name(&self) -> (res: Option<String>)
        ensures
            res.deep_view() == self@.name(),
    {
        match self {
            AttachmentContent::Image(c) => Some(c.body.clone()),
            AttachmentContent::Audio(c) => Some(c.body.clone()),
            AttachmentContent::Video(c) => Some(c.body.clone()),
            AttachmentContent::File(c) => Some(c.body.clone()),
            AttachmentContent::Location(c) => Some(c.body.clone()),
            AttachmentContent::Reference(r) => r.title(),
        }
    }
}

/// A message as the presentation layer sees it.
#[derive(Debug)]
pub enum MsgContent {
    Text { body: String, formatted_body: Option<String> },
    Image { body: String, source: MediaSource, info: Option<MediaInfo> },
    Audio {
        body: String,
        source: MediaSource,
        info: Option<MediaInfo>,
        audio: Option<AudioDetails>,
    },
    Video { body: String, source: MediaSource, info: Option<MediaInfo> },
    File { body: String, source: MediaSource, info: Option<MediaInfo>, filename: Option<String> },
    Location { body: String, geo_uri: String, info: Option<MediaInfo> },
}

/// Mathematical model of a [`MsgContent`].
pub enum MsgContentView {
    Text { body: Seq<char>, formatted_body: Option<Seq<char>> },
    Image { body: Seq<char>, source: MediaSourceView, info: Option<MediaInfoView> },
    Audio {
        body: Seq<char>,
        source: MediaSourceView,
        info: Option<MediaInfoView>,
        audio: Option<AudioDetailsView>,
    },
    Video { body: Seq<char>, source: MediaSourceView, info: Option<MediaInfoView> },
    File {
        body: Seq<char>,
        source: MediaSourceView,
        info: Option<MediaInfoView>,
        filename: Option<Seq<char>>,
    },
    Location { body: Seq<char>, geo_uri: Seq<char>, info: Option<MediaInfoView> },
}

impl View for MsgContent {
    type V = MsgContentView;

    open spec fn view(&self) -> MsgContentView {
        match self {
            MsgContent::Text { body, formatted_body } => MsgContentView::Text {
                body: body@,
                formatted_body: formatted_body.deep_view(),
            },
            MsgContent::Image { body, source, info } => MsgContentView::Image {
                body: body@,
                source: source@,
                info: info.deep_view(),
            },
            MsgContent::Audio { body, source, info, audio } => MsgContentView::Audio {
                body: body@,
                source: source@,
                info: info.deep_view(),
                audio: audio.deep_view(),
            },
            MsgContent::Video { body, source, info } => MsgContentView::Video {
                body: body@,
                source: source@,
                info: info.deep_view(),
            },
            MsgContent::File { body, source, info, filename } => MsgContentView::File {
                body: body@,
                source: source@,
                info: info.deep_view(),
                filename: filename.deep_view(),
            },
            MsgContent::Location { body, geo_uri, info } => MsgContentView::Location {
                body: body@,
                geo_uri: geo_uri@,
                info: info.deep_view(),
            },
        }
    }
}

impl DeepView for MsgContent {
    type V = MsgContentView;

    open spec fn deep_view(&self) -> MsgContentView {
        self@
    }
}

impl Clone for MsgContent {
    fn clone(&self) -> (res: Self)
        ensures
            res@ == self@,
    {
        match self {
            MsgContent::Text { body, formatted_body } => MsgContent::Text {
                body: body.clone(),
                formatted_body: formatted_body.clone(),
            },
            MsgContent::Image { body, source, info } => MsgContent::Image {
                body: body.clone(),
                source: source.clone(),
                info: info.clone(),
            },
            MsgContent::Audio { body, source, info, audio } => MsgContent::Audio {
                body: body.clone(),
                source: source.clone(),
                info: info.clone(),
                audio: audio.clone(),
            },
            MsgContent::Video { body, source, info } => MsgContent::Video {
                body: body.clone(),
                source: source.clone(),
                info: info.clone(),
            },
            MsgContent::File { body, source, info, filename } => MsgContent::File {
                body: body.clone(),
                source: source.clone(),
                info: info.clone(),
                filename: filename.clone(),
            },
            MsgContent::Location { body, geo_uri, info } => MsgContent::Location {
                body: body.clone(),
                geo_uri: geo_uri.clone(),
                info: info.clone(),
            },
        }
    }
}

impl MediaInfoView {
    /// The info that says nothing.
    pub open spec fn empty() -> MediaInfoView {
        MediaInfoView {
            mimetype: None,
            size: None,
            width: None,
            height: None,
            duration: None,
            thumbnail_source: None,
            thumbnail_info: None,
            blurhash: None,
        }
    }
}

impl MediaInfo {
    /// An info that says nothing.
    pub fn new() -> (res: MediaInfo)
        ensures
            res@ == MediaInfoView::empty(),
    {
        MediaInfo {
            mimetype: None,
            size: None,
            width: None,
            height: None,
            duration: None,
            thumbnail_source: None,
            thumbnail_info: None,
            blurhash: None,
        }
    }
}

impl MsgContentView {
    /// The message that shows an attachment: of the same kind, with the attachment's
    /// caption, source and info, the name of a file, the details of a piece of audio and
    /// the place of a location. A reference has no message.
    pub open spec fn of_attachment(content: AttachmentContentView) -> Option<MsgContentView> {
        match content {
            AttachmentContentView::Image(c) => Some(
                MsgContentView::Image { body: c.body, source: c.source, info: c.info },
            ),
            AttachmentContentView::Audio(c) => Some(
                MsgContentView::Audio {
                    body: c.body,
                    source: c.source,
                    info: c.info,
                    audio: c.audio,
                },
            ),
            AttachmentContentView::Video(c) => Some(
                MsgContentView::Video { body: c.body, source: c.source, info: c.info },
            ),
            AttachmentContentView::File(c) => Some(
                MsgContentView::File {
                    body: c.body,
                    source: c.source,
                    info: c.info,
                    filename: c.filename,
                },
            ),
            AttachmentContentView::Location(c) => Some(
                MsgContentView::Location { body: c.body, geo_uri: c.geo_uri, info: c.info },
            ),
            AttachmentContentView::Reference(_) => None,
        }
    }

    /// The plain text of the message.
    pub open spec fn body(self) -> Seq<char> {
        match self {
            MsgContentView::Text { body, .. } => body,
            MsgContentView::Image { body, .. } => body,
            MsgContentView::Audio { body, .. } => body,
            MsgContentView::Video { body, .. } => body,
            MsgContentView::File { body, .. } => body,
            MsgContentView::Location { body, .. } => body,
        }
    }

    /// The formatted text, for a text message that has one.
    pub open spec fn formatted_body(self) -> Option<Seq<char>> {
        match self {
            MsgContentView::Text { formatted_body, .. } => formatted_body,
            _ => None,
        }
    }

    /// Where the file can be fetched, for an image, audio, video or other file.
    pub open spec fn source(self) -> Option<MediaSourceView> {
        match self {
            MsgContentView::Image { source, .. } => Some(source),
            MsgContentView::Audio { source, .. } => Some(source),
            MsgContentView::Video { source, .. } => Some(source),
            MsgContentView::File { source, .. } => Some(source),
            _ => None,
        }
    }

    /// The MIME type of the file, for an image, audio, video or other file that names one.
    pub open spec fn mimetype(self) -> Option<Seq<char>> {
        match self {
            MsgContentView::Image { info: Some(info), .. } => info.mimetype,
            MsgContentView::Audio { info: Some(info), .. } => info.mimetype,
            MsgContentView::Video { info: Some(info), .. } => info.mimetype,
            MsgContentView::File { info: Some(info), .. } => info.mimetype,
            _ => None,
        }
    }

    /// The size of the file in bytes, for an image, audio, video or other file that names one.
    pub open spec fn size(self) -> Option<u64> {
        match self {
            MsgContentView::Image { info: Some(info), .. } => info.size,
            MsgContentView::Audio { info: Some(info), .. } => info.size,
            MsgContentView::Video { info: Some(info), .. } => info.size,
            MsgContentView::File { info: Some(info), .. } => info.size,
            _ => None,
        }
    }

    /// The width in pixels, for an image or video that names one.
    pub open spec fn width(self) -> Option<u64> {
        match self {
            MsgContentView::Image { info: Some(info), .. } => info.width,
            MsgContentView::Video { info: Some(info), .. } => info.width,
            _ => None,
        }
    }

    /// The height in pixels, for an image or video that names one.
    pub open spec fn height(self) -> Option<u64> {
        match self {
            MsgContentView::Image { info: Some(info), .. } => info.height,
            MsgContentView::Video { info: Some(info), .. } => info.height,
            _ => None,
        }
    }

    /// Where the thumbnail can be fetched, for an image, video, file or location that has one.
    pub open spec fn thumbnail_source(self) -> Option<MediaSourceView> {
        match self {
            MsgContentView::Image { info: Some(info), .. } => info.thumbnail_source,
            MsgContentView::Video { info: Some(info), .. } => info.thumbnail_source,
            MsgContentView::File { info: Some(info), .. } => info.thumbnail_source,
            MsgContentView::Location { info: Some(info), .. } => info.thumbnail_source,
            _ => None,
        }
    }

    /// What is known about the thumbnail, for an image, video, file or location that has one.
    pub open spec fn thumbnail_info(self) -> Option<ThumbnailInfoView> {
        match self {
            MsgContentView::Image { info: Some(info), .. } => info.thumbnail_info,
            MsgContentView::Video { info: Some(info), .. } => info.thumbnail_info,
            MsgContentView::File { info: Some(info), .. } => info.thumbnail_info,
            MsgContentView::Location { info: Some(info), .. } => info.thumbnail_info,
            _ => None,
        }
    }

    /// The playing time in whole seconds, for audio or video that names one.
    pub open spec fn duration(self) -> Option<u64> {
        match self {
            MsgContentView::Audio { info: Some(info), .. } => info.duration,
            MsgContentView::Video { info: Some(info), .. } => info.duration,
            _ => None,
        }
    }

    /// The blurhash, for an image or video that has one.
    pub open spec fn blurhash(self) -> Option<Seq<char>> {
        match self {
            MsgContentView::Image { info: Some(info), .. } => info.blurhash,
            MsgContentView::Video { info: Some(info), .. } => info.blurhash,
            _ => None,
        }
    }

    /// The name of the file, for a file that has one.
    pub open spec fn filename(self) -> Option<Seq<char>> {
        match self {
            MsgContentView::File { filename, .. } => filename,
            _ => None,
        }
    }

    /// The `geo:` URI, for a location.
    pub open spec fn geo_uri(self) -> Option<Seq<char>> {
        match self {
            MsgContentView::Location { geo_uri, .. } => Some(geo_uri),
            _ => None,
        }
    }

    /// How the audio sounds, for audio that says so.
    pub open spec fn audio(self) -> Option<AudioDetailsView> {
        match self {
            MsgContentView::Audio { audio, .. } => audio,
            _ => None,
        }
    }
}

/// A message made from an attachment is of the attachment's kind, and only a location comes
/// without a source.
pub proof fn lemma_of_attachment(content: AttachmentContentView)
    ensures
        MsgContentView::of_attachment(content) is None <==> content is Reference,
        content is Image ==> MsgContentView::of_attachment(content)->Some_0 is Image,
        content is Audio ==> MsgContentView::of_attachment(content)->Some_0 is Audio,
        content is Video ==> MsgContentView::of_attachment(content)->Some_0 is Video,
        content is File ==> MsgContentView::of_attachment(content)->Some_0 is File,
        content is Location ==> MsgContentView::of_attachment(content)->Some_0 is Location,
        !(content is Reference) ==> (MsgContentView::of_attachment(content)->Some_0.source()
            is None <==> content is Location),
{
}

impl MsgContent {
    /// A plain text message.
    pub fn from_text(body: String) -> (res: MsgContent)
        ensures
            res@ == (MsgContentView::Text { body: body@, formatted_body: None }),
    {
        MsgContent::Text { body, formatted_body: None }
    }

    /// An unencrypted image at `source`, of which nothing more is known.
    pub fn from_image(body: String, source: String) -> (res: MsgContent)
        ensures
            res@ == (MsgContentView::Image {
                body: body@,
                source: MediaSourceView::Plain(source@),
                info: Some(MediaInfoView::empty()),
            }),
    {
        MsgContent::Image { body, source: MediaSource::Plain(source), info: Some(MediaInfo::new()) }
    }

    /// The message that shows an attachment: of the same kind, with the attachment's
    /// caption, source and info, the name of a file, the details of a piece of audio and
    /// the place of a location. A reference has no message.
    pub fn from_attachment(content: &AttachmentContent) -> (res: Option<MsgContent>)
        ensures
            res.deep_view() == MsgContentView::of_attachment(content@),
    {
        match content {
            AttachmentContent::Image(c) => Some(
                MsgContent::Image {
                    body: c.body.clone(),
                    source: c.source.clone(),
                    info: c.info.clone(),
                },
            ),
            AttachmentContent::Audio(c) => Some(
                MsgContent::Audio {
                    body: c.body.clone(),
                    source: c.source.clone(),
                    info: c.info.clone(),
                    audio: c.audio.clone(),
                },
            ),
            AttachmentContent::Video(c) => Some(
                MsgContent::Video {
                    body: c.body.clone(),
                    source: c.source.clone(),
                    info: c.info.clone(),
                },
            ),
            AttachmentContent::File(c) => Some(
                MsgContent::File {
                    body: c.body.clone(),
                    source: c.source.clone(),
                    info: c.info.clone(),
                    filename: c.filename.clone(),
                },
            ),
            AttachmentContent::Location(c) => Some(
                MsgContent::Location {
                    body: c.body.clone(),
                    geo_uri: c.geo_uri.clone(),
                    info: c.info.clone(),
                },
            ),
            AttachmentContent::Reference(_) => None,
        }
    }

    /// A text message with the words of `content`.
    pub fn from_text_content(content: &TextContent) -> (res: MsgContent)
        ensures
            res@ == (MsgContentView::Text {
                body: content@.body,
                formatted_body: content@.formatted_body,
            }),
    {
        MsgContent::Text {
            body: content.body.clone(),
            formatted_body: content.formatted_body.clone(),
        }
    }

    /// The plain text of the message.
    pub fn body(&self) -> (res: String)
        ensures
            res@ == self@.body(),
    {
        match self {
            MsgContent::Text { body, .. } => body.clone(),
            MsgContent::Image { body, .. } => body.clone(),
            MsgContent::Audio { body, .. } => body.clone(),
            MsgContent::Video { body, .. } => body.clone(),
            MsgContent::File { body, .. } => body.clone(),
            MsgContent::Location { body, .. } => body.clone(),
        }
    }

    /// The formatted text, for a text message that has one.
    pub fn formatted_body(&self) -> (res: Option<String>)
        ensures
            res.deep_view() == self@.formatted_body(),
    {
        match self {
            MsgContent::Text { formatted_body, .. } => formatted_body.clone(),
            _ => None,
        }
    }

    /// Where the file can be fetched, for an image, audio, video or other file.
    pub fn source(&self) -> (res: Option<MediaSource>)
        ensures
            res.deep_view() == self@.source(),
    {
        match self {
            MsgContent::Image { source, .. } => Some(source.clone()),
            MsgContent::Audio { source, .. } => Some(source.clone()),
            MsgContent::Video { source, .. } => Some(source.clone()),
            MsgContent::File { source, .. } => Some(source.clone()),
            _ => None,
        }
    }

    /// The MIME type of the file, for an image, audio, video or other file that names one.
    pub fn mimetype(&self) -> (res: Option<String>)
        ensures
            res.deep_view() == self@.mimetype(),
    {
        match self {
            MsgContent::Image { info: Some(info), .. } => info.mimetype.clone(),
            MsgContent::Audio { info: Some(info), .. } => info.mimetype.clone(),
            MsgContent::Video { info: Some(info), .. } => info.mimetype.clone(),
            MsgContent::File { info: Some(info), .. } => info.mimetype.clone(),
            _ => None,
        }
    }

    /// The size of the file in bytes, for an image, audio, video or other file that names one.
    pub fn size(&self) -> (res: Option<u64>)
        ensures
            res == self@.size(),
    {
        match self {
            MsgContent::Image { info: Some(info), .. } => info.size,
            MsgContent::Audio { info: Some(info), .. } => info.size,
            MsgContent::Video { info: Some(info), .. } => info.size,
            MsgContent::File { info: Some(info), .. } => info.size,
            _ => None,
        }
    }

    /// The width in pixels, for an image or video that names one.
    pub fn width(&self) -> (res: Option<u64>)
        ensures
            res == self@.width(),
    {
        match self {
            MsgContent::Image { info: Some(info), .. } => info.width,
            MsgContent::Video { info: Some(info), .. } => info.width,
            _ => None,
        }
    }

    /// The height in pixels, for an image or video that names one.
    pub fn height(&self) -> (res: Option<u64>)
        ensures
            res == self@.height(),
    {
        match self {
            MsgContent::Image { info: Some(info), .. } => info.height,
            MsgContent::Video { info: Some(info), .. } => info.height,
            _ => None,
        }
    }

    /// Where the thumbnail can be fetched, for an image, video, file or location that has one.
    pub fn thumbnail_source(&self) -> (res: Option<MediaSource>)
        ensures
            res.deep_view() == self@.thumbnail_source(),
    {
        match self {
            MsgContent::Image { info: Some(info), .. } => info.thumbnail_source.clone(),
            MsgContent::Video { info: Some(info), .. } => info.thumbnail_source.clone(),
            MsgContent::File { info: Some(info), .. } => info.thumbnail_source.clone(),
            MsgContent::Location { info: Some(info), .. } => info.thumbnail_source.clone(),
            _ => None,
        }
    }

    /// What is known about the thumbnail, for an image, video, file or location that has one.
    pub fn thumbnail_info(&self) -> (res: Option<ThumbnailInfo>)
        ensures
            res.deep_view() == self@.thumbnail_info(),
    {
        match self {
            MsgContent::Image { info: Some(info), .. } => info.thumbnail_info.clone(),
            MsgContent::Video { info: Some(info), .. } => info.thumbnail_info.clone(),
            MsgContent::File { info: Some(info), .. } => info.thumbnail_info.clone(),
            MsgContent::Location { info: Some(info), .. } => info.thumbnail_info.clone(),
            _ => None,
        }
    }

    /// The playing time in whole seconds, for audio or video that names one.
    pub fn duration(&self) -> (res: Option<u64>)
        ensures
            res == self@.duration(),
    {
        match self {
            MsgContent::Audio { info: Some(info), .. } => info.duration,
            MsgContent::Video { info: Some(info), .. } => info.duration,
            _ => None,
        }
    }

    /// The blurhash, for an image or video that has one.
    pub fn blurhash(&self) -> (res: Option<String>)
        ensures
            res.deep_view() == self@.blurhash(),
    {
        match self {
            MsgContent::Image { info: Some(info), .. } => info.blurhash.clone(),
            MsgContent::Video { info: Some(info), .. } => info.blurhash.clone(),
            _ => None,
        }
    }

    /// The name of the file, for a file that has one.
    pub fn filename(&self) -> (res: Option<String>)
        ensures
            res.deep_view() == self@.filename(),
    {
        match self {
            MsgContent::File { filename, .. } => filename.clone(),
            _ => None,
        }
    }

    /// The `geo:` URI, for a location.
    pub fn geo_uri(&self) -> (res: Option<String>)
        ensures
            res.deep_view() == self@.geo_uri(),
    {
        match self {
            MsgContent::Location { geo_uri, .. } => Some(geo_uri.clone()),
            _ => None,
        }
    }

    /// How the audio sounds, for audio that says so.
    pub fn audio(&self) -> (res: Option<AudioDetails>)
        ensures
            res.deep_view() == self@.audio(),
    {
        match self {
            MsgContent::Audio { audio, .. } => audio.clone(),
            _ => None,
        }
    }
}

/// What a timeline item holds.
#[derive(Debug)]
pub enum TimelineEventContent {
    Message(MsgContent),
}

impl View for TimelineEventContent {
    type V = MsgContentView;

    open spec fn view(&self) -> MsgContentView {
        match self {
            TimelineEventContent::Message(m) => m@,
        }
    }
}

} // verus!
