//! The loading state of a page: it starts loading, then either shows its media or an error,
//! and an error is final.

use vstd::prelude::*;

use crate::playback::PipelineState;
use crate::text::str_eq;

verus! {

/// Whether a page is still loading, whether it failed, and whether it holds a playback
/// pipeline.
#[derive(Clone, Copy, Debug, PartialEq, Eq, Structural)]
pub struct PageStatus {
    pub is_loading: bool,
    pub is_error: bool,
    pub has_playbin: bool,
}

/// Which property notifications a change of status sends.
#[derive(Clone, Copy, Debug, PartialEq, Eq, Structural)]
pub struct StatusNotifications {
    pub is_loading: bool,
    pub is_error: bool,
    pub playbin: bool,
}

/// A reachable status: a failed page is neither loading nor holding a pipeline.
pub open spec fn status_valid(s: PageStatus) -> bool {
    s.is_error ==> !s.is_loading && !s.has_playbin
}

/// The status after a failure, and the notifications it sends: nothing changes when the page
/// already failed; otherwise loading stops, the page is marked as failed and its pipeline is
/// released.
pub open spec fn error_step(s: PageStatus) -> (PageStatus, StatusNotifications) {
    if s.is_error {
        (s, StatusNotifications { is_loading: false, is_error: false, playbin: false })
    } else {
        (
            PageStatus { is_loading: false, is_error: true, has_playbin: false },
            StatusNotifications { is_loading: s.is_loading, is_error: true, playbin: true },
        )
    }
}

/// The name of the stack page a page shows for its status.
pub open spec fn status_page_name(s: PageStatus) -> Seq<char> {
    if s.is_error {
        "error"@
    } else if s.is_loading {
        "loading"@
    } else {
        "content"@
    }
}

impl PageStatus {
    /// A page that just started loading, without a pipeline yet.
    pub fn new() -> (r: PageStatus)
        ensures
            r.is_loading && !r.is_error && !r.has_playbin,
            status_valid(r),
    {
        PageStatus { is_loading: true, is_error: false, has_playbin: false }
    }

    /// Marks the page as failed, releasing its pipeline, and says which notifications to send.
    pub fn set_error(&mut self) -> (r: StatusNotifications)
        ensures
            (*final(self), r) == error_step(*old(self)),
    {
        if self.is_error {
            return StatusNotifications { is_loading: false, is_error: false, playbin: false };
        }
        let was_loading = self.is_loading;
        self.is_loading = false;
        self.is_error = true;
        self.has_playbin = false;
        StatusNotifications { is_loading: was_loading, is_error: true, playbin: true }
    }

    /// The image decoded: loading is over.
    pub fn image_loaded(&mut self)
        ensures
            !final(self).is_loading,
            final(self).is_error == old(self).is_error,
            final(self).has_playbin == old(self).has_playbin,
    {
        self.is_loading = false;
    }

    /// The playback pipeline finished pre-rolling. Returns whether this ends the loading, which
    /// happens only the first time and never after a failure.
    pub fn prerolled(&mut self) -> (r: bool)
        ensures
            r == old(self).is_loading,
            !final(self).is_loading,
            final(self).is_error == old(self).is_error,
            final(self).has_playbin == old(self).has_playbin,
    {
        if self.is_loading {
            self.is_loading = false;
            true
        } else {
            false
        }
    }

    /// The stack page to show: `error`, `loading` or `content`.
    pub fn page_name(&self) -> (r: &'static str)
        ensures
            r@ == status_page_name(*self),
    {
        if self.is_error {
            "error"
        } else if self.is_loading {
            "loading"
        } else {
            "content"
        }
    }
}

/// A failure is final: it marks the page as failed, a page that had not failed yet also stops
/// loading and loses its pipeline, and a second failure changes nothing and notifies nothing.
pub proof fn law_error_is_final(s: PageStatus)
    ensures
        error_step(s).0.is_error,
        !s.is_error ==> !error_step(s).0.is_loading && !error_step(s).0.has_playbin,
        status_valid(s) ==> status_valid(error_step(s).0),
        error_step(error_step(s).0).0 == error_step(s).0,
        error_step(error_step(s).0).1 == (StatusNotifications {
            is_loading: false,
            is_error: false,
            playbin: false,
        }),
{
}

/// The codec and container of a page's media, as the stream tags give them.
#[derive(Debug, PartialEq, Eq)]
pub struct MediaTags {
    pub video_codec: Option<String>,
    pub container_format: Option<String>,
}

/// The text of an optional string.
pub open spec fn text_of(o: Option<String>) -> Option<Seq<char>> {
    match o {
        Some(t) => Some(t@),
        None => None,
    }
}

impl MediaTags {
    /// Neither codec nor container known.
    pub fn new() -> (r: MediaTags)
        ensures
            r.video_codec is None,
            r.container_format is None,
    {
        MediaTags { video_codec: None, container_format: None }
    }

    /// The codec and container as text.
    pub open spec fn texts(self) -> (Option<Seq<char>>, Option<Seq<char>>) {
        (text_of(self.video_codec), text_of(self.container_format))
    }
}

/// A stream tag: its name, and its value when the value is a string.
pub open spec fn tag_text(t: (String, Option<String>)) -> (Seq<char>, Option<Seq<char>>) {
    (t.0@, text_of(t.1))
}

/// The names and values of a list of tags.
pub open spec fn tag_texts(ts: Seq<(String, Option<String>)>) -> Seq<(Seq<char>, Option<Seq<char>>)> {
    ts.map_values(|t: (String, Option<String>)| tag_text(t))
}

/// The value of the last tag called `name` that has a string value, or `current` when there is
/// none.
pub open spec fn tag_value(
    tags: Seq<(Seq<char>, Option<Seq<char>>)>,
    name: Seq<char>,
    current: Option<Seq<char>>,
) -> Option<Seq<char>>
    decreases tags.len(),
{
    if tags.len() == 0 {
        current
    } else if tags.last().0 == name && tags.last().1 is Some {
        tags.last().1
    } else {
        tag_value(tags.drop_last(), name, current)
    }
}

/// Whether some tag called `name` has a string value.
pub open spec fn names_tag(tags: Seq<(Seq<char>, Option<Seq<char>>)>, name: Seq<char>) -> bool
    decreases tags.len(),
{
    tags.len() > 0 && ((tags.last().0 == name && tags.last().1 is Some) || names_tag(
        tags.drop_last(),
        name,
    ))
}

/// The tag that names the video codec.
pub open spec fn video_codec_tag() -> Seq<char> {
    "video-codec"@
}

/// The tag that names the container format.
pub open spec fn container_format_tag() -> Seq<char> {
    "container-format"@
}

/// The messages of a page's playback pipeline bus that the page reacts to.
#[derive(Debug)]
pub enum PageBusEvent {
    /// Some element reported an error.
    Error,
    /// The page's own pipeline changed state.
    StateChanged { current: PipelineState, pending: PipelineState },
    /// Stream tags, in the order of the tag list.
    Tags(Vec<(String, Option<String>)>),
    /// Anything else.
    Other,
}

/// What a page does for a bus message.
#[derive(Clone, Copy, Debug, PartialEq, Eq, Structural)]
pub enum PageBusAction {
    /// Show the error and release the pipeline; `notifications` says what changed.
    ShowError { notifications: StatusNotifications },
    /// Pre-rolling finished: read the video properties and show the media.
    ShowContent,
    /// The tags were read; each flag says whether that property was set and is notified.
    TagsRead { video_codec: bool, container_format: bool },
    /// Nothing.
    Nothing,
}

/// The status and the tags after a bus message, and the page's reaction. A page without a
/// pipeline ignores every message.
pub open spec fn page_bus_step(
    s: PageStatus,
    m: (Option<Seq<char>>, Option<Seq<char>>),
    ev: PageBusEvent,
) -> (PageStatus, (Option<Seq<char>>, Option<Seq<char>>), PageBusAction) {
    if !s.has_playbin {
        (s, m, PageBusAction::Nothing)
    } else {
        match ev {
            PageBusEvent::Error => (
                error_step(s).0,
                m,
                PageBusAction::ShowError { notifications: error_step(s).1 },
            ),
            PageBusEvent::StateChanged { current, pending } => if current == PipelineState::Paused
                && pending == PipelineState::VoidPending && s.is_loading {
                (
                    PageStatus { is_loading: false, ..s },
                    m,
                    PageBusAction::ShowContent,
                )
            } else {
                (s, m, PageBusAction::Nothing)
            },
            PageBusEvent::Tags(ts) => {
                let tv = tag_texts(ts@);
                (
                    s,
                    (
                        tag_value(tv, video_codec_tag(), m.0),
                        tag_value(tv, container_format_tag(), m.1),
                    ),
                    PageBusAction::TagsRead {
                        video_codec: names_tag(tv, video_codec_tag()),
                        container_format: names_tag(tv, container_format_tag()),
                    },
                )
            },
            PageBusEvent::Other => (s, m, PageBusAction::Nothing),
        }
    }
}

/// Takes the video codec and container format from a list of stream tags: the last
/// `video-codec` and `container-format` tags with a string value set them, and other tags change
/// nothing. Returns which of the two were set.
pub fn apply_tags(media: &mut MediaTags, tags: &Vec<(String, Option<String>)>) -> (r: (bool, bool))
    ensures
        final(media).texts() == (
            tag_value(tag_texts(tags@), video_codec_tag(), old(media).texts().0),
            tag_value(tag_texts(tags@), container_format_tag(), old(media).texts().1),
        ),
        r == (names_tag(tag_texts(tags@), video_codec_tag()), names_tag(
            tag_texts(tags@),
            container_format_tag(),
        )),
{
    let ghost m0 = media.texts();
    let ghost all = tag_texts(tags@);
    let mut codec_set = false;
    let mut container_set = false;
    let mut i: usize = 0;
    assert(all.take(0) =~= Seq::<(Seq<char>, Option<Seq<char>>)>::empty());
    while i < tags.len()
        invariant
            0 <= i <= tags@.len(),
            all == tag_texts(tags@),
            media.texts() == (
                tag_value(all.take(i as int), video_codec_tag(), m0.0),
                tag_value(all.take(i as int), container_format_tag(), m0.1),
            ),
            codec_set == names_tag(all.take(i as int), video_codec_tag()),
            container_set == names_tag(all.take(i as int), container_format_tag()),
        decreases tags@.len() - i,
    {
        let ghost next = all.take(i + 1);
        proof {
            assert(next.drop_last() =~= all.take(i as int));
            assert(next.last() == tag_text(tags@[i as int]));
            reveal_strlit("video-codec");
            reveal_strlit("container-format");
            assert(video_codec_tag().len() != container_format_tag().len());
        }
        let name = tags[i].0.as_str();
        match &tags[i].1 {
            Some(value) => {
                if str_eq(name, "video-codec") {
                    media.video_codec = Some(value.clone());
                    codec_set = true;
                } else if str_eq(name, "container-format") {
                    media.container_format = Some(value.clone());
                    container_set = true;
                }
            },
            None => {},
        }
        i = i + 1;
    }
    assert(all.take(tags@.len() as int) =~= all);
    (codec_set, container_set)
}

/// Handles a message of the page's pipeline bus.
pub fn on_page_bus_event(status: &mut PageStatus, media: &mut MediaTags, ev: PageBusEvent) -> (r:
    PageBusAction)
    ensures
        (*final(status), final(media).texts(), r) == page_bus_step(
            *old(status),
            old(media).texts(),
            ev,
        ),
        !old(status).has_playbin ==> *final(status) == *old(status) && final(media).texts()
            == old(media).texts() && r == PageBusAction::Nothing,
{
    if !status.has_playbin {
        return PageBusAction::Nothing;
    }
    match ev {
        PageBusEvent::Error => {
            let notifications = status.set_error();
            PageBusAction::ShowError { notifications }
        },
        PageBusEvent::StateChanged { current, pending } => {
            if current == PipelineState::Paused && pending == PipelineState::VoidPending
                && status.is_loading {
                status.is_loading = false;
                PageBusAction::ShowContent
            } else {
                PageBusAction::Nothing
            }
        },
        PageBusEvent::Tags(tags) => {
            let (video_codec, container_format) = apply_tags(media, &tags);
            PageBusAction::TagsRead { video_codec, container_format }
        },
        PageBusEvent::Other => PageBusAction::Nothing,
    }
}

/// A page that failed never shows its content later: once failed, no bus message changes its
/// status or its tags, or asks to show the content.
pub proof fn law_failed_page_stays_failed(
    s: PageStatus,
    m: (Option<Seq<char>>, Option<Seq<char>>),
    ev: PageBusEvent,
)
    requires
        status_valid(s),
        s.is_error,
    ensures
        page_bus_step(s, m, ev).0 == s,
        page_bus_step(s, m, ev).1 == m,
        page_bus_step(s, m, ev).2 != PageBusAction::ShowContent,
{
}

/// One more tag: a tag called `name` with a string value sets that value and is reported;
/// a tag with another name, or without a string value, changes neither.
pub proof fn law_one_more_tag(
    tags: Seq<(Seq<char>, Option<Seq<char>>)>,
    name: Seq<char>,
    current: Option<Seq<char>>,
    t: (Seq<char>, Option<Seq<char>>),
)
    ensures
        t.0 == name && t.1 is Some ==> tag_value(tags.push(t), name, current) == t.1 && names_tag(
            tags.push(t),
            name,
        ),
        !(t.0 == name && t.1 is Some) ==> tag_value(tags.push(t), name, current) == tag_value(
            tags,
            name,
            current,
        ) && names_tag(tags.push(t), name) == names_tag(tags, name),
        tag_value(Seq::<(Seq<char>, Option<Seq<char>>)>::empty(), name, current) == current,
        !names_tag(Seq::<(Seq<char>, Option<Seq<char>>)>::empty(), name),
{
    assert(tags.push(t).drop_last() =~= tags);
}

/// Tags other than the video codec and the container format change nothing.
pub proof fn law_other_tags_change_nothing(
    tags: Seq<(Seq<char>, Option<Seq<char>>)>,
    name: Seq<char>,
    current: Option<Seq<char>>,
)
    requires
        forall|i: int| 0 <= i < tags.len() ==> #[trigger] tags[i].0 != name,
    ensures
        tag_value(tags, name, current) == current,
        !names_tag(tags, name),
    decreases tags.len(),
{
    if tags.len() > 0 {
        let rest = tags.drop_last();
        assert(tags.last().0 != name) by {
            assert(tags[tags.len() - 1].0 != name);
        }
        assert forall|i: int| 0 <= i < rest.len() implies #[trigger] rest[i].0 != name by {
            assert(rest[i] == tags[i]);
        }
        law_other_tags_change_nothing(rest, name, current);
    }
}

} // verus!
