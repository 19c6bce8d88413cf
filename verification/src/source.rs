//! The external frame source: a video element that the host decodes and
//! advances by itself, and that is asked for its current frame on demand.

use vstd::prelude::*;
use crate::geometry::{origin2_zero, Origin2};

verus! {

/// Cross-origin policy of the media request.
#[derive(Clone, Copy, Debug, PartialEq, Eq, Structural)]
pub enum CrossOriginPolicy {
    /// The element carries no cross-origin attribute.
    Unset,
    /// Cross-origin requests are made without credentials.
    Anonymous,
}

/// Playback configuration of a frame source.
#[derive(Clone, Copy, Debug, PartialEq, Eq, Structural)]
pub struct SourceOptions {
    pub muted: bool,
    pub looped: bool,
    pub cross_origin: CrossOriginPolicy,
}

/// One request to the host's media element, in the order of [`source_plan`].
#[derive(Clone, Copy, Debug, PartialEq, Eq, Structural)]
pub enum SourceCommand {
    /// Construct the video element.
    CreateElement,
    /// Set or clear the cross-origin attribute.
    SetCrossOrigin(CrossOriginPolicy),
    /// Mute or unmute the audio track.
    SetMuted(bool),
    /// Restart from the beginning when the end is reached, or stop there.
    SetLooped(bool),
    /// Point the element at the media URI.
    SetSource,
    /// Ask for playback to begin. Playback starts asynchronously.
    Play,
}

/// Why a frame source could not be created.
#[derive(Clone, Copy, Debug, PartialEq, Eq, Structural)]
pub enum MediaInitError {
    /// The host could not construct a video element: the environment is unusable.
    ElementUnavailable,
    /// The host declined to start playback, as an autoplay policy does. A later
    /// request, made in answer to a user's action, may be accepted.
    PlaybackRejected,
}

/// View of an external visual source from which a copy reads: the source
/// whose current frame is taken, and the part of the frame that is copied.
#[derive(Clone, Copy, Debug, PartialEq, Eq)]
pub struct FrameSourceDescriptor<'a> {
    /// The source whose current frame is read at the moment of the copy.
    pub source: &'a ExternalFrameHandle,
    /// First texel that is copied, relative to the top left of the frame.
    pub origin: Origin2,
    /// Whether the frame is flipped vertically on its way into the texture.
    pub flip_y: bool,
}

/// Mathematical model of a frame source.
pub struct SourceModel {
    pub uri: Seq<char>,
    pub options: SourceOptions,
}

/// Mathematical model of a frame descriptor.
pub struct FrameSourceModel {
    pub source: SourceModel,
    pub origin: Origin2,
    pub flip_y: bool,
}

impl<'a> View for FrameSourceDescriptor<'a> {
    type V = FrameSourceModel;

    open spec fn view(&self) -> FrameSourceModel {
        FrameSourceModel { source: self.source@, origin: self.origin, flip_y: self.flip_y }
    }
}

/// Reference to the external, continuously decoding video element, together
/// with the playback configuration it was created with.
///
/// A handle exists only for an element that has accepted the request to play.
/// Whether a decoded frame has arrived yet is not known to it.
#[derive(Debug, PartialEq, Eq)]
pub struct ExternalFrameHandle {
    uri: String,
    options: SourceOptions,
}

impl View for ExternalFrameHandle {
    type V = SourceModel;

    closed spec fn view(&self) -> SourceModel {
        SourceModel { uri: self.uri@, options: self.options }
    }
}

/// The requests that create and start a frame source: construct the element,
/// apply the options, set the URI, ask for playback.
pub open spec fn source_plan(options: SourceOptions) -> Seq<SourceCommand> {
    seq![
        SourceCommand::CreateElement,
        SourceCommand::SetCrossOrigin(options.cross_origin),
        SourceCommand::SetMuted(options.muted),
        SourceCommand::SetLooped(options.looped),
        SourceCommand::SetSource,
        SourceCommand::Play,
    ]
}

/// The frame that a copy reads from a source: the whole current frame of
/// that source, from its top-left corner, not flipped.
pub open spec fn whole_frame(source: SourceModel) -> FrameSourceModel {
    FrameSourceModel { source, origin: Origin2::zero(), flip_y: false }
}

/// Mathematical model of a setup in progress.
pub struct SetupModel {
    pub options: SourceOptions,
    /// How many commands of the plan the host has carried out.
    pub done: nat,
    /// The failure at which the setup stopped, if it has stopped.
    pub failure: Option<MediaInitError>,
}

impl SetupModel {
    /// A setup of which nothing has been carried out yet.
    pub open spec fn start(options: SourceOptions) -> SetupModel {
        SetupModel { options, done: 0, failure: None }
    }

    /// What holds of every setup: it is somewhere in its plan, and where it
    /// stopped, it stopped short of the end, at the failure that belongs to
    /// the place.
    pub open spec fn wf(self) -> bool {
        &&& self.done <= source_plan(self.options).len()
        &&& self.failure is Some ==> self.done < source_plan(self.options).len()
        &&& self.failure is Some ==> self.failure == Some(self.error())
    }

    /// The command that the host is to carry out next: the first of the plan
    /// that is not done, unless the setup has stopped or is complete.
    pub open spec fn next(self) -> Option<SourceCommand> {
        if self.failure is None && self.done < source_plan(self.options).len() {
            Some(source_plan(self.options)[self.done as int])
        } else {
            None
        }
    }

    /// Whether the whole plan has been carried out: the element exists, is
    /// configured and has accepted the request to play.
    pub open spec fn playing(self) -> bool {
        self.failure is None && self.done == source_plan(self.options).len()
    }

    /// What stands in the way of a setup that is not playing: without an
    /// element the environment is unusable; with one, playback has not begun.
    pub open spec fn error(self) -> MediaInitError {
        if self.done == 0 {
            MediaInitError::ElementUnavailable
        } else {
            MediaInitError::PlaybackRejected
        }
    }

    /// The setup after the host has reported on the command it was handed.
    /// A report that answers no command changes nothing.
    pub open spec fn after_report(self, succeeded: bool) -> SetupModel {
        if self.next() is None {
            self
        } else if succeeded {
            SetupModel { done: self.done + 1, ..self }
        } else {
            SetupModel { failure: Some(self.error()), ..self }
        }
    }

    /// The setup after a request to try again: a rejected playback is
    /// forgotten, so that the command that failed is handed out once more.
    /// A missing element stays a failure.
    pub open spec fn after_retry(self) -> SetupModel {
        if self.failure == Some(MediaInitError::PlaybackRejected) {
            SetupModel { failure: None, ..self }
        } else {
            self
        }
    }

    /// The setup after a run of reports, taken one after the other.
    pub open spec fn after_reports(self, reports: Seq<bool>) -> SetupModel
        decreases reports.len(),
    {
        if reports.len() == 0 {
            self
        } else {
            self.after_report(reports[0]).after_reports(reports.drop_first())
        }
    }

    /// Whether a run of reports answers every command that is still to do
    /// with a success.
    pub open spec fn completed_by(self, reports: Seq<bool>) -> bool {
        &&& self.failure is None
        &&& self.done + reports.len() >= source_plan(self.options).len()
        &&& forall|i: int|
            0 <= i < source_plan(self.options).len() - self.done ==> #[trigger] reports[i]
    }
}

/// The result of creating a source from a setup: the handle where the setup
/// is playing, else what stands in its way.
pub open spec fn creation_result(uri: Seq<char>, setup: SetupModel) -> Result<
    SourceModel,
    MediaInitError,
> {
    if setup.playing() {
        Ok(SourceModel { uri, options: setup.options })
    } else {
        Err(setup.error())
    }
}

/// Progress of the host through the plan of one frame source. The host asks
/// for the next command, carries it out and reports whether it succeeded,
/// until no command is left.
#[derive(Debug, PartialEq, Eq)]
pub struct SourceSetup {
    options: SourceOptions,
    done: usize,
    failure: Option<MediaInitError>,
}

impl View for SourceSetup {
    type V = SetupModel;

    closed spec fn view(&self) -> SetupModel {
        SetupModel { options: self.options, done: self.done as nat, failure: self.failure }
    }
}

/// The requests to send to the host, in order, to create and start a frame
/// source with these options.
pub fn source_commands(options: SourceOptions) -> (plan: Vec<SourceCommand>)
    ensures
        plan@ == source_plan(options),
{
    let mut plan: Vec<SourceCommand> = Vec::new();
    plan.push(SourceCommand::CreateElement);
    plan.push(SourceCommand::SetCrossOrigin(options.cross_origin));
    plan.push(SourceCommand::SetMuted(options.muted));
    plan.push(SourceCommand::SetLooped(options.looped));
    plan.push(SourceCommand::SetSource);
    plan.push(SourceCommand::Play);
    assert(plan@ =~= source_plan(options));
    plan
}

/// The value of the element's cross-origin attribute under a policy, or
/// `None` where the attribute is left out.
pub fn cross_origin_attribute(policy: CrossOriginPolicy) -> (attribute: Option<&'static str>)
    ensures
        policy == CrossOriginPolicy::Unset <==> attribute is None,
        attribute matches Some(value) ==> value@ == "anonymous"@,
{
    match policy {
        CrossOriginPolicy::Unset => None,
        CrossOriginPolicy::Anonymous => Some("anonymous"),
    }
}

impl SourceSetup {
    #[verifier::type_invariant]
    spec fn well_formed(self) -> bool {
        self@.wf()
    }

    /// Begins the setup of a source with these options.
    pub fn begin(options: SourceOptions) -> (setup: SourceSetup)
        ensures
            setup@ == SetupModel::start(options),
            setup@.wf(),
    {
        SourceSetup { options, done: 0, failure: None }
    }

    /// The command that the host is to carry out next, or `None` where the
    /// setup is complete or has stopped at a failure.
    pub fn next_command(&self) -> (command: Option<SourceCommand>)
        ensures
            command == self@.next(),
    {
        if self.failure.is_some() {
            return None;
        }
        match self.done {
            0 => Some(SourceCommand::CreateElement),
            1 => Some(SourceCommand::SetCrossOrigin(self.options.cross_origin)),
            2 => Some(SourceCommand::SetMuted(self.options.muted)),
            3 => Some(SourceCommand::SetLooped(self.options.looped)),
            4 => Some(SourceCommand::SetSource),
            5 => Some(SourceCommand::Play),
            _ => None,
        }
    }

    /// Takes the host's report on the command that was handed out last. A
    /// success moves on to the next command. A failure stops the setup: the
    /// environment is unusable where the element could not be constructed,
    /// and playback was rejected where anything later failed.
    pub fn report(&mut self, succeeded: bool)
        ensures
            final(self)@ == old(self)@.after_report(succeeded),
            final(self)@.wf(),
    {
        proof {
            use_type_invariant(&*self);
        }
        if self.failure.is_some() || self.done >= 6 {
            return;
        }
        if succeeded {
            self.done = self.done + 1;
        } else if self.done == 0 {
            self.failure = Some(MediaInitError::ElementUnavailable);
        } else {
            self.failure = Some(MediaInitError::PlaybackRejected);
        }
    }

    /// Asks for another try after a rejected playback, as when the user has
    /// acted on the page. Returns whether there was anything to try again.
    pub fn retry(&mut self) -> (again: bool)
        ensures
            final(self)@ == old(self)@.after_retry(),
            final(self)@.wf(),
            again <==> old(self)@.failure == Some(MediaInitError::PlaybackRejected),
    {
        proof {
            use_type_invariant(&*self);
        }
        match self.failure {
            Some(MediaInitError::PlaybackRejected) => {
                self.failure = None;
                true
            },
            _ => false,
        }
    }

    /// Whether the whole plan has been carried out.
    pub fn is_playing(&self) -> (playing: bool)
        ensures
            playing == self@.playing(),
    {
        self.failure.is_none() && self.done == 6
    }

    /// The failure at which the setup stopped, if it has stopped.
    pub fn failure(&self) -> (failure: Option<MediaInitError>)
        ensures
            failure == self@.failure,
            self@.wf(),
    {
        proof {
            use_type_invariant(self);
        }
        self.failure
    }
}

/// Concludes the creation of a frame source.
///
/// A handle is returned exactly when the host has carried out the whole plan.
/// The two failures stay apart: without an element the environment is
/// unusable; with one, playback has not begun and may be tried again.
pub fn create_source(uri: String, setup: &SourceSetup) -> (result: Result<
    ExternalFrameHandle,
    MediaInitError,
>)
    ensures
        result is Ok <==> setup@.playing(),
        match result {
            Ok(handle) => Ok::<SourceModel, MediaInitError>(handle@),
            Err(error) => Err(error),
        } == creation_result(uri@, setup@),
{
    if setup.is_playing() {
        Ok(ExternalFrameHandle { uri, options: setup.options })
    } else if setup.done == 0 {
        Err(MediaInitError::ElementUnavailable)
    } else {
        Err(MediaInitError::PlaybackRejected)
    }
}

impl ExternalFrameHandle {
    /// The media URI that the element plays.
    pub fn uri(&self) -> (uri: &str)
        ensures
            uri@ == self@.uri,
    {
        self.uri.as_str()
    }

    /// The playback configuration that the element was given.
    pub fn options(&self) -> (options: SourceOptions)
        ensures
            options == self@.options,
    {
        self.options
    }

    /// Describes this source's current visual frame for a copy: the whole
    /// frame of this source, from its top-left corner, not flipped.
    ///
    /// The descriptor of one source is the same on every call: which pixels it
    /// stands for is decided by the host at the moment the copy is issued, and
    /// may be a blank frame while nothing has been decoded yet.
    pub fn current_frame(&self) -> (frame: FrameSourceDescriptor<'_>)
        ensures
            frame@ == whole_frame(self@),
    {
        FrameSourceDescriptor { source: self, origin: origin2_zero(), flip_y: false }
    }
}

impl MediaInitError {
    /// Whether creating the source may succeed if it is tried again later.
    pub fn is_retryable(&self) -> (retryable: bool)
        ensures
            retryable <==> *self == MediaInitError::PlaybackRejected,
    {
        match self {
            MediaInitError::ElementUnavailable => false,
            MediaInitError::PlaybackRejected => true,
        }
    }
}

/// In every plan the element is constructed first and asked to play last, the
/// cross-origin policy is in place before the URI is set, and the mute flag
/// before playback is requested.
pub proof fn lemma_plan_order(options: SourceOptions)
    ensures
        source_plan(options).first() == SourceCommand::CreateElement,
        source_plan(options).last() == SourceCommand::Play,
        forall|i: int, j: int|
            0 <= i < source_plan(options).len() && 0 <= j < source_plan(options).len()
                && source_plan(options)[i] is SetCrossOrigin && source_plan(options)[j]
                == SourceCommand::SetSource ==> i < j,
        forall|i: int, j: int|
            0 <= i < source_plan(options).len() && 0 <= j < source_plan(options).len()
                && source_plan(options)[i] is SetMuted && source_plan(options)[j]
                == SourceCommand::Play ==> i < j,
{
}

/// Every step keeps a setup well formed.
pub proof fn lemma_setup_stays_well_formed(setup: SetupModel, succeeded: bool)
    requires
        setup.wf(),
    ensures
        setup.after_report(succeeded).wf(),
        setup.after_retry().wf(),
        SetupModel::start(setup.options).wf(),
{
}

/// Commands are handed out in the order of the plan, and a success moves on
/// by exactly one.
pub proof fn lemma_commands_follow_the_plan(setup: SetupModel)
    requires
        setup.wf(),
        setup.next() is Some,
    ensures
        setup.next() == Some(source_plan(setup.options)[setup.done as int]),
        setup.after_report(true).done == setup.done + 1,
        setup.after_report(true).failure is None,
        setup.after_report(false).done == setup.done,
        setup.after_report(false).next() is None,
{
}

/// Without a retry, a setup plays after a run of reports exactly when the run
/// answers every command that was still to do with a success.
pub proof fn lemma_playing_iff_completed(setup: SetupModel, reports: Seq<bool>)
    requires
        setup.wf(),
    ensures
        setup.after_reports(reports).wf(),
        setup.after_reports(reports).playing() <==> setup.completed_by(reports),
    decreases reports.len(),
{
    if reports.len() > 0 {
        let step = setup.after_report(reports[0]);
        let rest = reports.drop_first();
        lemma_playing_iff_completed(step, rest);
        if setup.next() is Some && reports[0] {
            if step.completed_by(rest) {
                assert forall|i: int|
                    0 <= i < source_plan(setup.options).len() - setup.done implies #[trigger] reports[i] by {
                    if i > 0 {
                        assert(rest[i - 1]);
                    }
                }
            }
            if setup.completed_by(reports) {
                assert forall|i: int|
                    0 <= i < source_plan(step.options).len() - step.done implies #[trigger] rest[i] by {
                    assert(reports[i + 1]);
                }
            }
        } else if setup.next() is Some {
            assert(!reports[0]);
        }
    }
}

/// From the beginning, a handle can be had exactly when the host has
/// succeeded at every command of the plan.
pub proof fn lemma_created_iff_all_succeeded(
    uri: Seq<char>,
    options: SourceOptions,
    reports: Seq<bool>,
)
    ensures
        creation_result(uri, SetupModel::start(options).after_reports(reports)) is Ok <==> (
        reports.len() >= source_plan(options).len() && forall|i: int|
            0 <= i < source_plan(options).len() ==> #[trigger] reports[i]),
        creation_result(uri, SetupModel::start(options).after_reports(reports)) is Ok
            ==> creation_result(uri, SetupModel::start(options).after_reports(reports)) == Ok::<
            SourceModel,
            MediaInitError,
        >(SourceModel { uri, options }),
{
    lemma_playing_iff_completed(SetupModel::start(options), reports);
    lemma_reports_keep_options(SetupModel::start(options), reports);
}

/// Reports never change the options of a setup.
pub proof fn lemma_reports_keep_options(setup: SetupModel, reports: Seq<bool>)
    ensures
        setup.after_reports(reports).options == setup.options,
    decreases reports.len(),
{
    if reports.len() > 0 {
        lemma_reports_keep_options(setup.after_report(reports[0]), reports.drop_first());
    }
}

/// A setup that has stopped hands out no command and takes no report, until
/// it is asked to try again. After a rejected playback the command that
/// failed comes first; a missing element is final.
pub proof fn lemma_failure_halts_until_retry(setup: SetupModel, succeeded: bool)
    requires
        setup.wf(),
        setup.failure is Some,
    ensures
        setup.next() is None,
        !setup.playing(),
        setup.after_report(succeeded) == setup,
        setup.failure == Some(MediaInitError::PlaybackRejected) ==> setup.after_retry().next()
            == Some(source_plan(setup.options)[setup.done as int]),
        setup.failure == Some(MediaInitError::ElementUnavailable) ==> setup.after_retry()
            == setup,
{
}

} // verus!
