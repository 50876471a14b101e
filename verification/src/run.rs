//! The run over one page, as a state machine.
//!
//! A run goes through its phases in a fixed order. Whoever drives it does
//! the outside work of the current phase (a session, a navigation, reading
//! elements, writing files) and reports what came of it as an event; the run
//! answers with the work that is due next. The records of each category are
//! collected here, in the order in which they are reported.

use crate::reason::{FatalError, SkipReason};
use crate::record::{image_rows, link_rows, video_rows, ImageRecord, VideoRecord};
use crate::weburl::{domain, url_domain, url_parses};
use vstd::prelude::*;

verus! {

/// How far a run has come.
#[derive(Clone, Copy, Debug, PartialEq, Eq, Structural)]
pub enum Phase {
    /// Nothing has been done yet.
    Init,
    /// The page accessor has given a session.
    SessionEstablished,
    /// The page is loaded and reports the target's URL.
    Navigated,
    /// Every image element was taken up and the images manifest is written.
    ImagesDone,
    /// Every frame was taken up and the videos manifest is written.
    VideosDone,
    /// Every anchor was taken up and the links manifest is written.
    LinksDone,
    /// The markup of the page is written.
    SnapshotSaved,
    /// The session is released: the run has succeeded.
    Closed,
    /// A fatal error has ended the run.
    Aborted,
}

/// The outside work that is due in a phase.
#[derive(Clone, Copy, Debug, PartialEq, Eq, Structural)]
pub enum Action {
    /// Ask the page accessor for a session.
    AcquireSession,
    /// Navigate to the target and wait until the page reports its URL.
    Navigate,
    /// Create the output directory, take up each image element, and write
    /// the images manifest.
    ProcessImages,
    /// Take up each frame, and write the videos manifest.
    ProcessVideos,
    /// Take up each anchor, and write the links manifest.
    ProcessLinks,
    /// Write the markup of the page.
    SaveSnapshot,
    /// Release the session.
    ReleaseSession,
    /// Nothing is left to do.
    Stop,
}

/// What the driver reports to a run.
#[derive(Clone, Debug, PartialEq, Eq)]
pub enum Event {
    /// The work of the current phase is done.
    StageDone,
    /// An image was fetched and stored.
    ImageStored(ImageRecord),
    /// A frame resolved to a video.
    VideoFound(VideoRecord),
    /// An anchor resolved to an absolute URL.
    LinkFound(String),
    /// An element was skipped.
    Skipped(SkipReason),
    /// The work of the current phase failed in a way that ends the run.
    Fatal(FatalError),
}

/// An event, with its texts taken by their views.
pub enum Occurrence {
    /// The work of the current phase is done.
    StageDone,
    /// An image was stored: its source and its stored name.
    ImageStored((Seq<char>, Seq<char>)),
    /// A frame resolved: its source and the identifier of its video.
    VideoFound((Seq<char>, Seq<char>)),
    /// An anchor resolved to this URL.
    LinkFound(Seq<char>),
    /// An element was skipped.
    Skipped(SkipReason),
    /// The work of the current phase failed in a way that ends the run.
    Fatal(FatalError),
}

impl View for Event {
    type V = Occurrence;

    open spec fn view(&self) -> Occurrence {
        match *self {
            Event::StageDone => Occurrence::StageDone,
            Event::ImageStored(record) => Occurrence::ImageStored(record@),
            Event::VideoFound(record) => Occurrence::VideoFound(record@),
            Event::LinkFound(link) => Occurrence::LinkFound(link@),
            Event::Skipped(reason) => Occurrence::Skipped(reason),
            Event::Fatal(error) => Occurrence::Fatal(error),
        }
    }
}

/// What a run holds: its phase, the target and the site identifier derived
/// from it, the records of each category in the order in which they were
/// reported, and the error that ended it, if one did.
pub struct RunState {
    pub phase: Phase,
    pub target: Seq<char>,
    pub site: Seq<char>,
    pub images: Seq<(Seq<char>, Seq<char>)>,
    pub videos: Seq<(Seq<char>, Seq<char>)>,
    pub links: Seq<Seq<char>>,
    pub failure: Option<FatalError>,
}

/// The phase that follows `phase` once its work is done. The two terminal
/// phases follow themselves.
pub open spec fn successor(phase: Phase) -> Phase {
    match phase {
        Phase::Init => Phase::SessionEstablished,
        Phase::SessionEstablished => Phase::Navigated,
        Phase::Navigated => Phase::ImagesDone,
        Phase::ImagesDone => Phase::VideosDone,
        Phase::VideosDone => Phase::LinksDone,
        Phase::LinksDone => Phase::SnapshotSaved,
        Phase::SnapshotSaved => Phase::Closed,
        Phase::Closed => Phase::Closed,
        Phase::Aborted => Phase::Aborted,
    }
}

/// A run in a terminal phase goes nowhere else.
pub open spec fn is_terminal(phase: Phase) -> bool {
    phase == Phase::Closed || phase == Phase::Aborted
}

/// The outside work that is due in `phase`.
pub open spec fn action_for(phase: Phase) -> Action {
    match phase {
        Phase::Init => Action::AcquireSession,
        Phase::SessionEstablished => Action::Navigate,
        Phase::Navigated => Action::ProcessImages,
        Phase::ImagesDone => Action::ProcessVideos,
        Phase::VideosDone => Action::ProcessLinks,
        Phase::LinksDone => Action::SaveSnapshot,
        Phase::SnapshotSaved => Action::ReleaseSession,
        Phase::Closed => Action::Stop,
        Phase::Aborted => Action::Stop,
    }
}

/// The state of a run that has just been made for `target`.
pub open spec fn initial_state(target: Seq<char>, site: Seq<char>) -> RunState {
    RunState {
        phase: Phase::Init,
        target,
        site,
        images: Seq::empty(),
        videos: Seq::empty(),
        links: Seq::empty(),
        failure: None,
    }
}

/// The state after `event` has been reported in `state`.
///
/// A terminal state takes no event. Elsewhere a fatal error aborts the run,
/// a finished stage leads to the next phase, and a skipped element changes
/// nothing. A record is appended to the list of its category while that
/// category is being processed, and is dropped at any other time.
pub open spec fn step(state: RunState, event: Occurrence) -> RunState {
    if is_terminal(state.phase) {
        state
    } else {
        match event {
            Occurrence::StageDone => RunState { phase: successor(state.phase), ..state },
            Occurrence::ImageStored(record) => if state.phase == Phase::Navigated {
                RunState { images: state.images.push(record), ..state }
            } else {
                state
            },
            Occurrence::VideoFound(record) => if state.phase == Phase::ImagesDone {
                RunState { videos: state.videos.push(record), ..state }
            } else {
                state
            },
            Occurrence::LinkFound(link) => if state.phase == Phase::VideosDone {
                RunState { links: state.links.push(link), ..state }
            } else {
                state
            },
            Occurrence::Skipped(_) => state,
            Occurrence::Fatal(error) => RunState {
                phase: Phase::Aborted,
                failure: Some(error),
                ..state
            },
        }
    }
}

/// The state after each of `events` has been reported in turn.
pub open spec fn run_through(state: RunState, events: Seq<Occurrence>) -> RunState
    decreases events.len(),
{
    if events.len() == 0 {
        state
    } else {
        step(run_through(state, events.drop_last()), events.last())
    }
}

impl RunState {
    /// What holds of every state that a run can reach: it holds an error
    /// exactly when it is aborted, and unless it is aborted, no category has
    /// records before its turn.
    pub open spec fn well_formed(self) -> bool {
        &&& self.failure is Some <==> self.phase == Phase::Aborted
        &&& self.phase == Phase::Init || self.phase == Phase::SessionEstablished
            ==> self.images.len() == 0
        &&& self.phase == Phase::Init || self.phase == Phase::SessionEstablished || self.phase
            == Phase::Navigated ==> self.videos.len() == 0
        &&& self.phase == Phase::Init || self.phase == Phase::SessionEstablished || self.phase
            == Phase::Navigated || self.phase == Phase::ImagesDone ==> self.links.len() == 0
    }
}

/// The site identifier of a target: the domain name of its host.
/// `InvalidTarget` where the target does not parse, `NoSiteIdentifier`
/// where its host is no domain name.
pub open spec fn site_outcome(target: Seq<char>) -> Result<Seq<char>, FatalError> {
    if !url_parses(target) {
        Err(FatalError::InvalidTarget)
    } else {
        match url_domain(target) {
            Some(site) => Ok(site),
            None => Err(FatalError::NoSiteIdentifier),
        }
    }
}

/// Maps what parsing a target came to: a target that did not parse is
/// `InvalidTarget`, one without a domain name is `NoSiteIdentifier`.
pub fn site_from(parsed: Result<Option<String>, url::ParseError>) -> (site: Result<
    String,
    FatalError,
>)
    ensures
        match parsed {
            Ok(Some(name)) => site == Ok::<String, FatalError>(name),
            Ok(None) => site == Err::<String, FatalError>(FatalError::NoSiteIdentifier),
            Err(_) => site == Err::<String, FatalError>(FatalError::InvalidTarget),
        },
{
    match parsed {
        Ok(Some(name)) => Ok(name),
        Ok(None) => Err(FatalError::NoSiteIdentifier),
        Err(_) => Err(FatalError::InvalidTarget),
    }
}

/// The site identifier of `target`: the domain name of its host.
pub fn site_identifier(target: &str) -> (site: Result<String, FatalError>)
    ensures
        match site {
            Ok(name) => site_outcome(target@) == Ok::<Seq<char>, FatalError>(name@),
            Err(error) => site_outcome(target@) == Err::<Seq<char>, FatalError>(error),
        },
{
    site_from(domain(target))
}

/// The run over one page.
pub struct Run {
    phase: Phase,
    target: String,
    site: String,
    images: Vec<ImageRecord>,
    videos: Vec<VideoRecord>,
    links: Vec<String>,
    failure: Option<FatalError>,
}

impl View for Run {
    type V = RunState;

    closed spec fn view(&self) -> RunState {
        RunState {
            phase: self.phase,
            target: self.target@,
            site: self.site@,
            images: image_rows(self.images@),
            videos: video_rows(self.videos@),
            links: link_rows(self.links@),
            failure: self.failure,
        }
    }
}

impl Run {
    /// A run for the page at `target`, in its first phase and without
    /// records. Fails with `InvalidTarget` where `target` does not parse as
    /// a URL, and with `NoSiteIdentifier` where its host is no domain name.
    pub fn new(target: &str) -> (made: Result<Run, FatalError>)
        ensures
            match made {
                Ok(run) => site_outcome(target@) == Ok::<Seq<char>, FatalError>(run@.site)
                    && run@ == initial_state(target@, run@.site) && run@.well_formed(),
                Err(error) => site_outcome(target@) == Err::<Seq<char>, FatalError>(error),
            },
    {
        match site_identifier(target) {
            Ok(site) => {
                let run = Run {
                    phase: Phase::Init,
                    target: target.to_owned(),
                    site,
                    images: Vec::new(),
                    videos: Vec::new(),
                    links: Vec::new(),
                    failure: None,
                };
                assert(run@.images =~= Seq::empty());
                assert(run@.videos =~= Seq::empty());
                assert(run@.links =~= Seq::empty());
                Ok(run)
            },
            Err(error) => Err(error),
        }
    }

    /// Takes `event` in, and says what is due next.
    pub fn handle(&mut self, event: Event) -> (next: Action)
        ensures
            final(self)@ == step(old(self)@, event@),
            next == action_for(final(self)@.phase),
            old(self)@.well_formed() ==> final(self)@.well_formed(),
    {
        if !(self.phase == Phase::Closed || self.phase == Phase::Aborted) {
            match event {
                Event::StageDone => {
                    self.phase = next_phase(self.phase);
                },
                Event::ImageStored(record) => {
                    if self.phase == Phase::Navigated {
                        self.images.push(record);
                        assert(image_rows(self.images@) =~= image_rows(old(self).images@).push(
                            record@,
                        ));
                    }
                },
                Event::VideoFound(record) => {
                    if self.phase == Phase::ImagesDone {
                        self.videos.push(record);
                        assert(video_rows(self.videos@) =~= video_rows(old(self).videos@).push(
                            record@,
                        ));
                    }
                },
                Event::LinkFound(link) => {
                    if self.phase == Phase::VideosDone {
                        self.links.push(link);
                        assert(link_rows(self.links@) =~= link_rows(old(self).links@).push(link@));
                    }
                },
                Event::Skipped(_) => {},
                Event::Fatal(error) => {
                    self.phase = Phase::Aborted;
                    self.failure = Some(error);
                },
            }
        }
        proof {
            if old(self)@.well_formed() {
                lemma_step_keeps_well_formed(old(self)@, event@);
            }
        }
        next_action(self.phase)
    }

    /// The phase that the run is in.
    pub fn phase(&self) -> (phase: Phase)
        ensures
            phase == self@.phase,
    {
        self.phase
    }

    /// The work that is due now.
    pub fn due(&self) -> (action: Action)
        ensures
            action == action_for(self@.phase),
    {
        next_action(self.phase)
    }

    /// The target of the run, which is also the base against which the
    /// references on the page are resolved.
    pub fn target(&self) -> (target: &str)
        ensures
            target@ == self@.target,
    {
        self.target.as_str()
    }

    /// The site identifier, which names the output directory.
    pub fn site(&self) -> (site: &str)
        ensures
            site@ == self@.site,
    {
        self.site.as_str()
    }

    /// The image records, in the order in which they were reported.
    pub fn images(&self) -> (records: &Vec<ImageRecord>)
        ensures
            image_rows(records@) == self@.images,
    {
        &self.images
    }

    /// The video records, in the order in which they were reported.
    pub fn videos(&self) -> (records: &Vec<VideoRecord>)
        ensures
            video_rows(records@) == self@.videos,
    {
        &self.videos
    }

    /// The links, in the order in which they were reported.
    pub fn links(&self) -> (links: &Vec<String>)
        ensures
            link_rows(links@) == self@.links,
    {
        &self.links
    }

    /// The error that ended the run, if one did.
    pub fn failure(&self) -> (failure: Option<FatalError>)
        ensures
            failure == self@.failure,
    {
        self.failure
    }
}

/// The phase that follows `phase` once its work is done.
pub fn next_phase(phase: Phase) -> (next: Phase)
    ensures
        next == successor(phase),
{
    match phase {
        Phase::Init => Phase::SessionEstablished,
        Phase::SessionEstablished => Phase::Navigated,
        Phase::Navigated => Phase::ImagesDone,
        Phase::ImagesDone => Phase::VideosDone,
        Phase::VideosDone => Phase::LinksDone,
        Phase::LinksDone => Phase::SnapshotSaved,
        Phase::SnapshotSaved => Phase::Closed,
        Phase::Closed => Phase::Closed,
        Phase::Aborted => Phase::Aborted,
    }
}

/// The outside work that is due in `phase`.
pub fn next_action(phase: Phase) -> (action: Action)
    ensures
        action == action_for(phase),
{
    match phase {
        Phase::Init => Action::AcquireSession,
        Phase::SessionEstablished => Action::Navigate,
        Phase::Navigated => Action::ProcessImages,
        Phase::ImagesDone => Action::ProcessVideos,
        Phase::VideosDone => Action::ProcessLinks,
        Phase::LinksDone => Action::SaveSnapshot,
        Phase::SnapshotSaved => Action::ReleaseSession,
        Phase::Closed => Action::Stop,
        Phase::Aborted => Action::Stop,
    }
}

/// How many stages lie behind `phase`. An aborted run has no rank of its
/// own: it keeps whatever lay behind it.
pub open spec fn rank(phase: Phase) -> int {
    match phase {
        Phase::Init => 0,
        Phase::SessionEstablished => 1,
        Phase::Navigated => 2,
        Phase::ImagesDone => 3,
        Phase::VideosDone => 4,
        Phase::LinksDone => 5,
        Phase::SnapshotSaved => 6,
        Phase::Closed => 7,
        Phase::Aborted => 0,
    }
}

/// No event leads out of the well-formed states, and a new run is in one.
pub proof fn lemma_step_keeps_well_formed(state: RunState, event: Occurrence)
    requires
        state.well_formed(),
    ensures
        step(state, event).well_formed(),
        forall|target: Seq<char>, site: Seq<char>| #[trigger]
            initial_state(target, site).well_formed(),
{
}

/// A skipped element changes nothing: not the phase, not a record.
pub proof fn lemma_skip_changes_nothing(state: RunState, reason: SkipReason)
    ensures
        step(state, Occurrence::Skipped(reason)) == state,
{
}

/// A run that is closed or aborted stays as it is, whatever is reported.
pub proof fn lemma_terminal_takes_no_event(state: RunState, event: Occurrence)
    requires
        is_terminal(state.phase),
    ensures
        step(state, event) == state,
{
}

/// A fatal error aborts a run from any phase but the two terminal ones, and
/// is kept as the reason; the records collected so far stay.
pub proof fn lemma_fatal_aborts(state: RunState, error: FatalError)
    requires
        !is_terminal(state.phase),
    ensures
        step(state, Occurrence::Fatal(error)).phase == Phase::Aborted,
        step(state, Occurrence::Fatal(error)).failure == Some(error),
        step(state, Occurrence::Fatal(error)).images == state.images,
        step(state, Occurrence::Fatal(error)).videos == state.videos,
        step(state, Occurrence::Fatal(error)).links == state.links,
{
}

/// The phases are passed in order, one at a time: an event leaves the phase
/// as it is, leads to the next one, or aborts the run. Only a finished
/// stage leads on, and only a fatal error aborts.
pub proof fn lemma_phases_in_order(state: RunState, event: Occurrence)
    ensures
        step(state, event).phase == state.phase || step(state, event).phase == Phase::Aborted
            || rank(step(state, event).phase) == rank(state.phase) + 1,
        step(state, event).phase != state.phase ==> event is StageDone || event is Fatal,
        step(state, event).phase == Phase::Aborted && state.phase != Phase::Aborted
            ==> event is Fatal,
        step(state, event).target == state.target,
        step(state, event).site == state.site,
{
}

/// A manifest is written once: an event adds at most one record, at the end
/// of the list of the category that is being processed, and no list changes
/// outside the phase of its category.
pub proof fn lemma_records_are_kept(state: RunState, event: Occurrence)
    ensures
        event matches Occurrence::ImageStored(record) ==> (state.phase == Phase::Navigated
            ==> step(state, event).images == state.images.push(record)),
        event matches Occurrence::VideoFound(record) ==> (state.phase == Phase::ImagesDone
            ==> step(state, event).videos == state.videos.push(record)),
        event matches Occurrence::LinkFound(link) ==> (state.phase == Phase::VideosDone ==> step(
            state,
            event,
        ).links == state.links.push(link)),
        !(event is ImageStored) || state.phase != Phase::Navigated ==> step(state, event).images
            == state.images,
        !(event is VideoFound) || state.phase != Phase::ImagesDone ==> step(state, event).videos
            == state.videos,
        !(event is LinkFound) || state.phase != Phase::VideosDone ==> step(state, event).links
            == state.links,
{
}

/// Seven finished stages in a row take a new run to `Closed`, without a
/// record and without an error.
pub proof fn lemma_seven_stages_close(target: Seq<char>, site: Seq<char>)
    ensures
        run_through(initial_state(target, site), Seq::new(7, |i: int| Occurrence::StageDone))
            == (RunState { phase: Phase::Closed, ..initial_state(target, site) }),
{
    let start = initial_state(target, site);
    let all = Seq::new(7, |i: int| Occurrence::StageDone);
    assert forall|n: int| 0 <= n <= 7 implies rank(
        (#[trigger] run_through(start, all.take(n))).phase,
    ) == n && run_through(start, all.take(n)) == (RunState {
        phase: run_through(start, all.take(n)).phase,
        ..start
    }) by {
        lemma_stages_advance(start, all, n);
    }
    assert(all.take(7) =~= all);
}

/// After `n` finished stages out of a run of them, a new run is `n` phases
/// on and otherwise unchanged.
proof fn lemma_stages_advance(start: RunState, all: Seq<Occurrence>, n: int)
    requires
        start.phase == Phase::Init,
        0 <= n <= all.len() <= 7,
        forall|i: int| 0 <= i < all.len() ==> all[i] == Occurrence::StageDone,
    ensures
        rank(run_through(start, all.take(n)).phase) == n,
        run_through(start, all.take(n)).phase != Phase::Aborted,
        run_through(start, all.take(n)) == (RunState {
            phase: run_through(start, all.take(n)).phase,
            ..start
        }),
    decreases n,
{
    if n > 0 {
        lemma_stages_advance(start, all, n - 1);
        assert(all.take(n).drop_last() =~= all.take(n - 1));
        assert(all.take(n).last() == Occurrence::StageDone);
    }
}

} // verus!
