//! Small value types shared by the presentation-facing parts of the library.

use crate::content::{RefDetails, RefDetailsView};
use crate::error::CoreError;
use crate::foreign::is_event_id;
use crate::ids::event_id;
use vstd::prelude::*;

verus! {

/// A span of time, held as whole seconds and the nanoseconds beyond them.
#[derive(Clone, Copy, Debug, PartialEq, Eq, Structural)]
pub struct Duration {
    pub secs: u64,
    pub nanos: u32,
}

/// The span of exactly `secs` seconds.
pub fn duration_from_secs(secs: u64) -> (res: Duration)
    ensures
        res.secs == secs,
        res.nanos == 0,
{
    Duration { secs, nanos: 0 }
}

/// An optional value behind a handle that hands out copies.
pub struct FfiOption<T>(pub Option<T>);

impl<T: Clone> FfiOption<T> {
    pub fn new(inner: Option<T>) -> (res: Self)
        ensures
            res.0 == inner,
    {
        FfiOption(inner)
    }

    /// A copy of the value held, if any.
    pub fn inner(&self) -> (res: Option<T>)
        ensures
            res is Some == self.0 is Some,
            res matches Some(v) ==> cloned::<T>(self.0->Some_0, v),
    {
        self.0.clone()
    }
}

/// One session of the user, as the device list shows it.
#[derive(Debug)]
pub struct DeviceRecord {
    pub device_id: String,
    pub display_name: Option<String>,
    /// When the device was last seen, in milliseconds since the Unix epoch.
    pub last_seen_ts: Option<u64>,
    pub last_seen_ip: Option<String>,
    pub is_verified: bool,
    pub is_active: bool,
    pub is_me: bool,
}

/// Mathematical model of a [`DeviceRecord`].
pub struct DeviceRecordView {
    pub device_id: Seq<char>,
    pub display_name: Option<Seq<char>>,
    pub last_seen_ts: Option<u64>,
    pub last_seen_ip: Option<Seq<char>>,
    pub is_verified: bool,
    pub is_active: bool,
    pub is_me: bool,
}

impl View for DeviceRecord {
    type V = DeviceRecordView;

    open spec fn view(&self) -> DeviceRecordView {
        DeviceRecordView {
            device_id: self.device_id@,
            display_name: self.display_name.deep_view(),
            last_seen_ts: self.last_seen_ts,
            last_seen_ip: self.last_seen_ip.deep_view(),
            is_verified: self.is_verified,
            is_active: self.is_active,
            is_me: self.is_me,
        }
    }
}

impl DeepView for DeviceRecord {
    type V = DeviceRecordView;

    open spec fn deep_view(&self) -> DeviceRecordView {
        self@
    }
}

impl Clone for DeviceRecord {
    fn clone(&self) -> (res: Self)
        ensures
            res@ == self@,
    {
        DeviceRecord {
            device_id: self.device_id.clone(),
            display_name: self.display_name.clone(),
            last_seen_ts: self.last_seen_ts,
            last_seen_ip: self.last_seen_ip.clone(),
            is_verified: self.is_verified,
            is_active: self.is_active,
            is_me: self.is_me,
        }
    }
}

impl DeviceRecord {
    pub fn new(
        device_id: String,
        display_name: Option<String>,
        last_seen_ts: Option<u64>,
        last_seen_ip: Option<String>,
        is_verified: bool,
        is_active: bool,
        is_me: bool,
    ) -> (res: Self)
        ensures
            res@ == (DeviceRecordView {
                device_id: device_id@,
                display_name: display_name.deep_view(),
                last_seen_ts,
                last_seen_ip: last_seen_ip.deep_view(),
                is_verified,
                is_active,
                is_me,
            }),
    {
        DeviceRecord {
            device_id,
            display_name,
            last_seen_ts,
            last_seen_ip,
            is_verified,
            is_active,
            is_me,
        }
    }

    pub fn device_id(&self) -> (res: String)
        ensures
            res@ == self@.device_id,
    {
        self.device_id.clone()
    }

    pub fn display_name(&self) -> (res: Option<String>)
        ensures
            res.deep_view() == self@.display_name,
    {
        self.display_name.clone()
    }

    pub fn last_seen_ts(&self) -> (res: Option<u64>)
        ensures
            res == self@.last_seen_ts,
    {
        self.last_seen_ts
    }

    pub fn last_seen_ip(&self) -> (res: Option<String>)
        ensures
            res.deep_view() == self@.last_seen_ip,
    {
        self.last_seen_ip.clone()
    }

    pub fn is_verified(&self) -> (res: bool)
        ensures
            res == self@.is_verified,
    {
        self.is_verified
    }

    pub fn is_me(&self) -> (res: bool)
        ensures
            res == self@.is_me,
    {
        self.is_me
    }

    pub fn is_active(&self) -> (res: bool)
        ensures
            res == self@.is_active,
    {
        self.is_active
    }
}

/// The largest integer that the wire format carries exactly: 2^53 - 1.
pub const MAX_SAFE_UINT: u64 = 0x001f_ffff_ffff_ffff;

/// The size asked of a thumbnail, in pixels. Both sides fit the wire format.
#[derive(Clone, Copy, Debug)]
pub struct ThumbnailSize {
    width: u64,
    height: u64,
}

impl ThumbnailSize {
    #[verifier::type_invariant]
    spec fn fits_the_wire(&self) -> bool {
        self.width <= MAX_SAFE_UINT && self.height <= MAX_SAFE_UINT
    }

    /// The width in pixels.
    pub closed spec fn spec_width(&self) -> u64 {
        self.width
    }

    /// The height in pixels.
    pub closed spec fn spec_height(&self) -> u64 {
        self.height
    }

    /// A size of `width` by `height` pixels. A side beyond `MAX_SAFE_UINT` is refused, the
    /// width first.
    pub fn new(width: u64, height: u64) -> (res: Result<ThumbnailSize, CoreError>)
        ensures
            width > MAX_SAFE_UINT ==> res is Err && res->Err_0 == CoreError::InvalidThumbnailWidth,
            width <= MAX_SAFE_UINT && height > MAX_SAFE_UINT ==> res is Err && res->Err_0
                == CoreError::InvalidThumbnailHeight,
            width <= MAX_SAFE_UINT && height <= MAX_SAFE_UINT ==> res is Ok
                && res->Ok_0.spec_width() == width && res->Ok_0.spec_height() == height,
    {
        if width > MAX_SAFE_UINT {
            Err(CoreError::InvalidThumbnailWidth)
        } else if height > MAX_SAFE_UINT {
            Err(CoreError::InvalidThumbnailHeight)
        } else {
            Ok(ThumbnailSize { width, height })
        }
    }

    #[verifier::when_used_as_spec(spec_width)]
    pub fn width(&self) -> (res: u64)
        ensures
            res == self.spec_width(),
            res <= MAX_SAFE_UINT,
    {
        proof {
            use_type_invariant(self);
        }
        self.width
    }

    #[verifier::when_used_as_spec(spec_height)]
    pub fn height(&self) -> (res: u64)
        ensures
            res == self.spec_height(),
            res <= MAX_SAFE_UINT,
    {
        proof {
            use_type_invariant(self);
        }
        self.height
    }

    /// The format to ask media in: a scaled thumbnail of the size given, or the file itself
    /// where no size is given.
    pub fn parse_into_media_format(thumb_size: Option<Box<ThumbnailSize>>) -> (res: MediaFormat)
        ensures
            res == match thumb_size {
                Some(size) => MediaFormat::Thumbnail {
                    method: ThumbnailMethod::Scale,
                    width: size.spec_width(),
                    height: size.spec_height(),
                },
                None => MediaFormat::File,
            },
    {
        match thumb_size {
            Some(size) => MediaFormat::from(size),
            None => MediaFormat::File,
        }
    }
}

/// How a thumbnail is made to fit its size.
#[derive(Clone, Copy, Debug, PartialEq, Eq, Structural)]
pub enum ThumbnailMethod {
    Crop,
    Scale,
}

/// The format in which media is asked for.
#[derive(Clone, Copy, Debug, PartialEq, Eq, Structural)]
pub enum MediaFormat {
    /// The file as it was uploaded.
    File,
    /// A thumbnail of the file.
    Thumbnail { method: ThumbnailMethod, width: u64, height: u64 },
}

impl From<Box<ThumbnailSize>> for MediaFormat {
    /// A thumbnail of the size given, scaled to fit.
    fn from(val: Box<ThumbnailSize>) -> (res: MediaFormat)
        ensures
            res == (MediaFormat::Thumbnail {
                method: ThumbnailMethod::Scale,
                width: val.spec_width(),
                height: val.spec_height(),
            }),
    {
        MediaFormat::Thumbnail {
            method: ThumbnailMethod::Scale,
            width: val.width(),
            height: val.height(),
        }
    }
}

impl vstd::std_specs::convert::FromSpecImpl<Box<ThumbnailSize>> for MediaFormat {
    open spec fn obeys_from_spec() -> bool {
        true
    }

    open spec fn from_spec(val: Box<ThumbnailSize>) -> MediaFormat {
        MediaFormat::Thumbnail {
            method: ThumbnailMethod::Scale,
            width: val.spec_width(),
            height: val.spec_height(),
        }
    }
}

/// A size of `width` by `height` pixels, as [`ThumbnailSize::new`] makes it.
pub fn new_thumb_size(width: u64, height: u64) -> (res: Result<ThumbnailSize, CoreError>)
    ensures
        width > MAX_SAFE_UINT ==> res is Err && res->Err_0 == CoreError::InvalidThumbnailWidth,
        width <= MAX_SAFE_UINT && height > MAX_SAFE_UINT ==> res is Err && res->Err_0
            == CoreError::InvalidThumbnailHeight,
        width <= MAX_SAFE_UINT && height <= MAX_SAFE_UINT ==> res is Ok
            && res->Ok_0.spec_width() == width && res->Ok_0.spec_height() == height,
{
    ThumbnailSize::new(width, height)
}

/// The colours of an object, while they are being chosen.
#[derive(Clone, Copy, Debug, PartialEq, Eq, Structural)]
pub struct ColorizeBuilder {
    pub color: Option<u32>,
    pub background: Option<u32>,
}

impl ColorizeBuilder {
    pub fn color(&mut self, color: u32)
        ensures
            *final(self) == (ColorizeBuilder { color: Some(color), ..*old(self) }),
    {
        self.color = Some(color);
    }

    pub fn background(&mut self, background: u32)
        ensures
            *final(self) == (ColorizeBuilder { background: Some(background), ..*old(self) }),
    {
        self.background = Some(background);
    }
}

/// A builder with the colours that are given.
pub fn new_colorize_builder(color: Option<u32>, background: Option<u32>) -> (res: Result<
    ColorizeBuilder,
    CoreError,
>)
    ensures
        res == Ok::<ColorizeBuilder, CoreError>(ColorizeBuilder { color, background }),
{
    let mut builder = ColorizeBuilder { color: None, background: None };
    if let Some(color) = color {
        builder.color(color);
    }
    if let Some(background) = background {
        builder.background(background);
    }
    Ok(builder)
}

/// A reference, while it is being put together.
#[derive(Debug)]
pub struct RefDetailsBuilder {
    pub details: RefDetails,
}

impl View for RefDetailsBuilder {
    type V = RefDetailsView;

    open spec fn view(&self) -> RefDetailsView {
        self.details@
    }
}

impl RefDetailsView {
    /// The reference with its room set; a link has no room and stays as it is.
    pub open spec fn with_room_id(self, room: Seq<char>) -> RefDetailsView {
        match self {
            RefDetailsView::Task { target_id, task_list, action, .. } => RefDetailsView::Task {
                target_id,
                room_id: Some(room),
                task_list,
                action,
            },
            RefDetailsView::TaskList { target_id, action, .. } => RefDetailsView::TaskList {
                target_id,
                room_id: Some(room),
                action,
            },
            RefDetailsView::CalendarEvent { target_id, action, .. } => {
                RefDetailsView::CalendarEvent { target_id, room_id: Some(room), action }
            },
            RefDetailsView::Link { .. } => self,
        }
    }

    /// The reference with its action set; a link has no action and stays as it is.
    pub open spec fn with_action(self, act: Seq<char>) -> RefDetailsView {
        match self {
            RefDetailsView::Task { target_id, room_id, task_list, .. } => RefDetailsView::Task {
                target_id,
                room_id,
                task_list,
                action: Some(act),
            },
            RefDetailsView::TaskList { target_id, room_id, .. } => RefDetailsView::TaskList {
                target_id,
                room_id,
                action: Some(act),
            },
            RefDetailsView::CalendarEvent { target_id, room_id, .. } => {
                RefDetailsView::CalendarEvent { target_id, room_id, action: Some(act) }
            },
            RefDetailsView::Link { .. } => self,
        }
    }

    /// The reference with room and action set where they are given.
    pub open spec fn with_options(
        self,
        room: Option<Seq<char>>,
        act: Option<Seq<char>>,
    ) -> RefDetailsView {
        let with_room = match room {
            Some(r) => self.with_room_id(r),
            None => self,
        };
        match act {
            Some(a) => with_room.with_action(a),
            None => with_room,
        }
    }
}

impl RefDetailsBuilder {
    /// A builder for a reference to the task `target_id` of the list `task_list`.
    pub fn new_task_ref_builder(target_id: String, task_list: String) -> (res: Self)
        ensures
            res@ == (RefDetailsView::Task {
                target_id: target_id@,
                room_id: None,
                task_list: task_list@,
                action: None,
            }),
    {
        RefDetailsBuilder {
            details: RefDetails::Task { target_id, room_id: None, task_list, action: None },
        }
    }

    /// A builder for a reference to the task list `target_id`.
    pub fn new_task_list_ref_builder(target_id: String) -> (res: Self)
        ensures
            res@ == (RefDetailsView::TaskList {
                target_id: target_id@,
                room_id: None,
                action: None,
            }),
    {
        RefDetailsBuilder {
            details: RefDetails::TaskList { target_id, room_id: None, action: None },
        }
    }

    /// A builder for a reference to the calendar event `target_id`.
    pub fn new_calendar_event_ref_builder(target_id: String) -> (res: Self)
        ensures
            res@ == (RefDetailsView::CalendarEvent {
                target_id: target_id@,
                room_id: None,
                action: None,
            }),
    {
        RefDetailsBuilder {
            details: RefDetails::CalendarEvent { target_id, room_id: None, action: None },
        }
    }

    /// A builder for a link to `uri` under the name `title`.
    pub fn new_link_ref_builder(title: String, uri: String) -> (res: Self)
        ensures
            res@ == (RefDetailsView::Link { title: title@, uri: uri@ }),
    {
        RefDetailsBuilder { details: RefDetails::Link { title, uri } }
    }

    /// Sets the room of the object referred to.
    pub fn room_id(&mut self, room: String)
        ensures
            final(self)@ == old(self)@.with_room_id(room@),
    {
        match &mut self.details {
            RefDetails::Task { room_id, .. } => {
                *room_id = Some(room);
            },
            RefDetails::TaskList { room_id, .. } => {
                *room_id = Some(room);
            },
            RefDetails::CalendarEvent { room_id, .. } => {
                *room_id = Some(room);
            },
            RefDetails::Link { .. } => {},
        }
    }

    /// Sets what following the reference does.
    pub fn action(&mut self, act: String)
        ensures
            final(self)@ == old(self)@.with_action(act@),
    {
        match &mut self.details {
            RefDetails::Task { action, .. } => {
                *action = Some(act);
            },
            RefDetails::TaskList { action, .. } => {
                *action = Some(act);
            },
            RefDetails::CalendarEvent { action, .. } => {
                *action = Some(act);
            },
            RefDetails::Link { .. } => {},
        }
    }

    /// Sets room and action where they are given.
    pub fn options(&mut self, room: Option<String>, act: Option<String>)
        ensures
            final(self)@ == old(self)@.with_options(room.deep_view(), act.deep_view()),
    {
        if let Some(room) = room {
            self.room_id(room);
        }
        if let Some(act) = act {
            self.action(act);
        }
    }

    /// The reference as it stands.
    pub fn build(self) -> (res: RefDetails)
        ensures
            res@ == self@,
    {
        self.details
    }
}

/// A builder for a reference to a task. Both ids must be event ids, the task's is looked
/// at first; one that is none gives `CoreError::InvalidId`.
pub fn new_task_ref_builder(
    target_id: String,
    room_id: Option<String>,
    task_list: String,
    action: Option<String>,
) -> (res: Result<RefDetailsBuilder, CoreError>)
    ensures
        is_event_id(target_id@) && is_event_id(task_list@) ==> res is Ok && res->Ok_0@ == (
        RefDetailsView::Task {
            target_id: target_id@,
            room_id: None,
            task_list: task_list@,
            action: None,
        }).with_options(room_id.deep_view(), action.deep_view()),
        !(is_event_id(target_id@) && is_event_id(task_list@)) ==> res is Err && res->Err_0
            == CoreError::InvalidId,
{
    let target_id = match event_id(target_id.as_str()) {
        Ok(id) => id,
        Err(e) => {
            return Err(e);
        },
    };
    let task_list = match event_id(task_list.as_str()) {
        Ok(id) => id,
        Err(e) => {
            return Err(e);
        },
    };
    let mut builder = RefDetailsBuilder::new_task_ref_builder(target_id, task_list);
    builder.options(room_id, action);
    Ok(builder)
}

/// A builder for a reference to a task list. The id must be an event id; one that is none
/// gives `CoreError::InvalidId`.
pub fn new_task_list_ref_builder(
    target_id: String,
    room_id: Option<String>,
    action: Option<String>,
) -> (res: Result<RefDetailsBuilder, CoreError>)
    ensures
        is_event_id(target_id@) ==> res is Ok && res->Ok_0@ == (RefDetailsView::TaskList {
            target_id: target_id@,
            room_id: None,
            action: None,
        }).with_options(room_id.deep_view(), action.deep_view()),
        !is_event_id(target_id@) ==> res is Err && res->Err_0 == CoreError::InvalidId,
{
    let target_id = match event_id(target_id.as_str()) {
        Ok(id) => id,
        Err(e) => {
            return Err(e);
        },
    };
    let mut builder = RefDetailsBuilder::new_task_list_ref_builder(target_id);
    builder.options(room_id, action);
    Ok(builder)
}

/// A builder for a reference to a calendar event. The id must be an event id; one that is
/// none gives `CoreError::InvalidId`.
pub fn new_calendar_event_ref_builder(
    target_id: String,
    room_id: Option<String>,
    action: Option<String>,
) -> (res: Result<RefDetailsBuilder, CoreError>)
    ensures
        is_event_id(target_id@) ==> res is Ok && res->Ok_0@ == (RefDetailsView::CalendarEvent {
            target_id: target_id@,
            room_id: None,
            action: None,
        }).with_options(room_id.deep_view(), action.deep_view()),
        !is_event_id(target_id@) ==> res is Err && res->Err_0 == CoreError::InvalidId,
{
    let target_id = match event_id(target_id.as_str()) {
        Ok(id) => id,
        Err(e) => {
            return Err(e);
        },
    };
    let mut builder = RefDetailsBuilder::new_calendar_event_ref_builder(target_id);
    builder.options(room_id, action);
    Ok(builder)
}

/// A builder for a link.
pub fn new_link_ref_builder(title: String, uri: String) -> (res: Result<
    RefDetailsBuilder,
    CoreError,
>)
    ensures
        res is Ok && res->Ok_0@ == (RefDetailsView::Link { title: title@, uri: uri@ }),
{
    Ok(RefDetailsBuilder::new_link_ref_builder(title, uri))
}

/// Where on its parent an object reference is shown.
#[derive(Clone, Copy, Debug, PartialEq, Eq, Structural)]
pub enum Position {
    TopLeft,
    TopMiddle,
    TopRight,
    CenterLeft,
    CenterMiddle,
    CenterRight,
    BottomLeft,
    BottomMiddle,
    BottomRight,
}

impl Position {
    /// The position that `name` names, if it names one.
    pub open spec fn named(name: Seq<char>) -> Option<Position> {
        if name == "top-left"@ {
            Some(Position::TopLeft)
        } else if name == "top-middle"@ {
            Some(Position::TopMiddle)
        } else if name == "top-right"@ {
            Some(Position::TopRight)
        } else if name == "center-left"@ {
            Some(Position::CenterLeft)
        } else if name == "center-middle"@ {
            Some(Position::CenterMiddle)
        } else if name == "center-right"@ {
            Some(Position::CenterRight)
        } else if name == "bottom-left"@ {
            Some(Position::BottomLeft)
        } else if name == "bottom-middle"@ {
            Some(Position::BottomMiddle)
        } else if name == "bottom-right"@ {
            Some(Position::BottomRight)
        } else {
            None
        }
    }

    /// The position that `name` names, if it names one.
    pub fn from_str(name: &str) -> (res: Option<Position>)
        ensures
            res == Self::named(name@),
    {
        if *name == *"top-left" {
            Some(Position::TopLeft)
        } else if *name == *"top-middle" {
            Some(Position::TopMiddle)
        } else if *name == *"top-right" {
            Some(Position::TopRight)
        } else if *name == *"center-left" {
            Some(Position::CenterLeft)
        } else if *name == *"center-middle" {
            Some(Position::CenterMiddle)
        } else if *name == *"center-right" {
            Some(Position::CenterRight)
        } else if *name == *"bottom-left" {
            Some(Position::BottomLeft)
        } else if *name == *"bottom-middle" {
            Some(Position::BottomMiddle)
        } else if *name == *"bottom-right" {
            Some(Position::BottomRight)
        } else {
            None
        }
    }
}

/// A reference to an object together with the place where it is shown, while it is being
/// put together.
#[derive(Debug)]
pub struct ObjRefBuilder {
    pub position: Option<Position>,
    pub reference: RefDetails,
}

impl ObjRefBuilder {
    pub fn new(position: Option<Position>, reference: RefDetails) -> (res: Self)
        ensures
            res.position == position,
            res.reference@ == reference@,
    {
        ObjRefBuilder { position, reference }
    }
}

/// A builder for an object reference. A position that names none is taken as no position.
pub fn new_obj_ref_builder(position: Option<String>, reference: Box<RefDetails>) -> (res: Result<
    ObjRefBuilder,
    CoreError,
>)
    ensures
        res is Ok,
        res->Ok_0.reference@ == reference@,
        res->Ok_0.position == match position {
            Some(name) => Position::named(name@),
            None => None,
        },
{
    let position = match position {
        Some(name) => Position::from_str(name.as_str()),
        None => None,
    };
    Ok(ObjRefBuilder::new(position, *reference))
}

} // verus!
