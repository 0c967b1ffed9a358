//! The launch of the client: which server to ask for, the descriptor that is
//! handed to the client, and the steps from a cookie to a started process.

use crate::api::handshake::{
    advance, next_step, out_of_turn, AccountAction, ActionOutcome, BrokerCommand, BrokerEvent,
    BrokerState, CommandText, OutcomeText,
};
use crate::api::http::{HttpRequest, RequestText};
use crate::deps::encoding::{percent_encoded, percent_encoded_byte, url_encode};
use crate::deps::random::random_u64;
use crate::deps::text::{trim, trimmed};
use crate::error::{Failure, NexusError};
use crate::strings::{decimal, push_decimal, push_signed_decimal, signed_decimal};
use vstd::prelude::*;
use vstd::string::*;
use vstd::utf8::*;

verus! {

/// Tracker identifiers lie below this bound.
pub const TRACKER_BOUND: u64 = 1_000_000_000_000;

/// How long to wait, in milliseconds, after terminating running clients.
pub const SETTLE_MILLIS: u64 = 500;

/// The processes of a running client, which a launch that is not
/// multi-instance has terminated first.
pub const CLIENT_PROCESS: &'static str = "RobloxPlayerBeta.exe";

pub const LAUNCHER_PROCESS: &'static str = "Roblox.exe";

/// Which server a launch asks for.
#[derive(Clone, Debug, PartialEq, Eq)]
pub enum LaunchTarget {
    /// Any open server of the place.
    Matchmake,
    /// One running server, by its job id.
    RejoinServer { job_id: String },
    /// A private server, by its access code and perhaps a link code.
    JoinPrivate { access_code: String, link_code: Option<String> },
}

/// The three kinds of target.
#[derive(Clone, Copy, Debug, PartialEq, Eq, Structural)]
pub enum TargetKind {
    Matchmake,
    RejoinServer,
    JoinPrivate,
}

/// Everything a launch needs to know. Job id and access code exclude each
/// other by construction: a target is of one kind.
#[derive(Clone, Debug, PartialEq, Eq)]
pub struct LaunchIntent {
    pub cookie: String,
    pub place_id: String,
    pub target: LaunchTarget,
    pub multi_instance: bool,
}

/// The kind of a target.
pub open spec fn kind_of(target: LaunchTarget) -> TargetKind {
    match target {
        LaunchTarget::Matchmake => TargetKind::Matchmake,
        LaunchTarget::RejoinServer { .. } => TargetKind::RejoinServer,
        LaunchTarget::JoinPrivate { .. } => TargetKind::JoinPrivate,
    }
}

/// The kind of target that a choice of optional fields selects: none where
/// job id and access code are both given, or a link code comes without an
/// access code.
pub open spec fn selected_kind(has_job: bool, has_access: bool, has_link: bool) -> Option<
    TargetKind,
> {
    if has_job && has_access {
        None
    } else if has_link && !has_access {
        None
    } else if has_job {
        Some(TargetKind::RejoinServer)
    } else if has_access {
        Some(TargetKind::JoinPrivate)
    } else {
        Some(TargetKind::Matchmake)
    }
}

/// The selection is decided by which fields are given, and its three
/// outcomes exclude each other: matchmaking exactly where neither job id nor
/// access code is given, a rejoin exactly where only the job id is, a private
/// join exactly where only the access code is.
pub proof fn lemma_selection_exclusive(has_job: bool, has_access: bool, has_link: bool)
    ensures
        selected_kind(has_job, has_access, has_link) == Some(TargetKind::Matchmake) <==> !has_job
            && !has_access && !has_link,
        selected_kind(has_job, has_access, has_link) == Some(TargetKind::RejoinServer) <==> has_job
            && !has_access && !has_link,
        selected_kind(has_job, has_access, has_link) == Some(TargetKind::JoinPrivate)
            <==> !has_job && has_access,
{
}

/// The place asked for where none is named.
pub open spec fn default_place() -> Seq<char> {
    "1818"@
}

/// The place of a public launch: the one named, without surrounding white
/// space, or the default where none is named or nothing is left of it.
pub open spec fn effective_place(place_id: Option<Seq<char>>) -> Seq<char> {
    match place_id {
        Some(place) => if trimmed(place).len() == 0 {
            default_place()
        } else {
            trimmed(place)
        },
        None => default_place(),
    }
}

/// The place that an intent holds for a kind of target: private joins take
/// the place as written, the others the effective place.
pub open spec fn intent_place(kind: TargetKind, place_id: Option<Seq<char>>) -> Seq<char> {
    match kind {
        TargetKind::JoinPrivate => match place_id {
            Some(place) => place,
            None => Seq::empty(),
        },
        _ => effective_place(place_id),
    }
}

/// An optional borrowed text as an optional sequence of characters.
pub open spec fn opt_str(text: Option<&str>) -> Option<Seq<char>> {
    match text {
        Some(t) => Some(t@),
        None => None,
    }
}

/// The address that the client asks for its server.
pub open spec fn locator(target: LaunchTarget, place: Seq<char>, tracker: nat) -> Seq<char> {
    match target {
        LaunchTarget::Matchmake =>
            "https://assetgame.roblox.com/game/PlaceLauncher.ashx?request=RequestGame&browserTrackerId="@
            + decimal(tracker) + "&placeId="@ + place + "&isPlayTogetherGame=false"@,
        LaunchTarget::RejoinServer { job_id } =>
            "https://assetgame.roblox.com/game/PlaceLauncher.ashx?request=RequestGameJob&browserTrackerId="@
            + decimal(tracker) + "&placeId="@ + place + "&gameId="@ + job_id@
            + "&isPlayTogetherGame=false&isTeleport=true"@,
        LaunchTarget::JoinPrivate { access_code, link_code: Some(link) } =>
            "https://assetgame.roblox.com/game/PlaceLauncher.ashx?request=RequestPrivateGame&placeId="@
            + place + "&accessCode="@ + access_code@ + "&linkCode="@ + link@,
        LaunchTarget::JoinPrivate { access_code, link_code: None } =>
            "https://assetgame.roblox.com/game/PlaceLauncher.ashx?request=RequestPrivateGame&placeId="@
            + place + "&accessCode="@ + access_code@,
    }
}

/// The descriptor handed to the client: fields joined by `+`, among them the
/// ticket, the launch time in milliseconds, the percent-encoded locator and
/// the tracker.
pub open spec fn descriptor(
    intent: LaunchIntent,
    ticket: Seq<char>,
    launch_time: int,
    tracker: nat,
) -> Seq<char> {
    "roblox-player:1+launchmode:play+gameinfo:"@ + ticket + "+launchtime:"@ + signed_decimal(
        launch_time,
    ) + "+placelauncherurl:"@ + percent_encoded(
        encode_utf8(locator(intent.target, intent.place_id@, tracker)),
    ) + "+browsertrackerid:"@ + decimal(tracker)
        + "+robloxLocale:en_us+gameLocale:en_us+channel:+LaunchExp:InApp"@
}

/// The fields of a descriptor are joined by `+`, and the locator is
/// percent-encoded so that it holds none: no byte, whatever it is, leaves a
/// `+` in its encoding.
pub proof fn lemma_encoded_locator_holds_no_delimiter(bytes: Seq<u8>)
    ensures
        forall|i: int| 0 <= i < percent_encoded(bytes).len() ==> percent_encoded(bytes)[i] != '+',
    decreases bytes.len(),
{
    if bytes.len() > 0 {
        lemma_encoded_locator_holds_no_delimiter(bytes.drop_first());
        let head = percent_encoded_byte(bytes[0]);
        let tail = percent_encoded(bytes.drop_first());
        assert(percent_encoded(bytes) == head + tail);
        assert forall|k: int| 0 <= k < head.len() implies head[k] != '+' by {
            let high = bytes[0] as int / 16;
            let low = bytes[0] as int % 16;
            assert(0 <= high < 16 && 0 <= low < 16);
        }
        assert forall|i: int| 0 <= i < percent_encoded(bytes).len() implies percent_encoded(
            bytes,
        )[i] != '+' by {
            if i < head.len() {
                assert((head + tail)[i] == head[i]);
            } else {
                assert((head + tail)[i] == tail[i - head.len()]);
            }
        }
    }
}

impl LaunchTarget {
    /// The kind of this target.
    pub fn kind(&self) -> (kind: TargetKind)
        ensures
            kind == kind_of(*self),
    {
        match self {
            LaunchTarget::Matchmake => TargetKind::Matchmake,
            LaunchTarget::RejoinServer { .. } => TargetKind::RejoinServer,
            LaunchTarget::JoinPrivate { .. } => TargetKind::JoinPrivate,
        }
    }
}

/// The place of a public launch: the one named, trimmed, or the default.
pub fn normalise_place(place_id: Option<&str>) -> (place: String)
    ensures
        place@ == effective_place(opt_str(place_id)),
{
    match place_id {
        Some(place) => {
            let inner = trim(place);
            if inner.is_empty() {
                String::from_str("1818")
            } else {
                String::from_str(inner)
            }
        },
        None => String::from_str("1818"),
    }
}

impl LaunchIntent {
    /// Builds an intent from the fields that are given.
    ///
    /// The kind of target depends on nothing but which of the optional
    /// fields are there. A job id together with an access code is refused,
    /// and so is a link code without an access code.
    pub fn new(
        cookie: &str,
        place_id: Option<&str>,
        job_id: Option<&str>,
        access_code: Option<&str>,
        link_code: Option<&str>,
        multi_instance: bool,
    ) -> (intent: Option<LaunchIntent>)
        ensures
            match intent {
                Some(i) => {
                    &&& selected_kind(job_id is Some, access_code is Some, link_code is Some)
                        == Some(kind_of(i.target))
                    &&& i.cookie@ == cookie@
                    &&& i.multi_instance == multi_instance
                    &&& i.place_id@ == intent_place(kind_of(i.target), opt_str(place_id))
                    &&& match i.target {
                        LaunchTarget::Matchmake => true,
                        LaunchTarget::RejoinServer { job_id: job } => Some(job@) == opt_str(job_id),
                        LaunchTarget::JoinPrivate { access_code: access, link_code: link } => {
                            &&& Some(access@) == opt_str(access_code)
                            &&& match link {
                                Some(l) => Some(l@) == opt_str(link_code),
                                None => link_code is None,
                            }
                        },
                    }
                },
                None => selected_kind(job_id is Some, access_code is Some, link_code is Some)
                    is None,
            },
    {
        match (job_id, access_code) {
            (Some(_), Some(_)) => None,
            (Some(job), None) => {
                if link_code.is_some() {
                    return None;
                }
                Some(
                    LaunchIntent {
                        cookie: String::from_str(cookie),
                        place_id: normalise_place(place_id),
                        target: LaunchTarget::RejoinServer { job_id: String::from_str(job) },
                        multi_instance,
                    },
                )
            },
            (None, Some(access)) => {
                let place = match place_id {
                    Some(p) => String::from_str(p),
                    None => String::new(),
                };
                let link = match link_code {
                    Some(l) => Some(String::from_str(l)),
                    None => None,
                };
                Some(
                    LaunchIntent {
                        cookie: String::from_str(cookie),
                        place_id: place,
                        target: LaunchTarget::JoinPrivate {
                            access_code: String::from_str(access),
                            link_code: link,
                        },
                        multi_instance,
                    },
                )
            },
            (None, None) => {
                if link_code.is_some() {
                    return None;
                }
                Some(
                    LaunchIntent {
                        cookie: String::from_str(cookie),
                        place_id: normalise_place(place_id),
                        target: LaunchTarget::Matchmake,
                        multi_instance,
                    },
                )
            },
        }
    }

    /// The address that the client is to ask for its server.
    pub fn locator_url(&self, tracker: u64) -> (url: String)
        ensures
            url@ == locator(self.target, self.place_id@, tracker as nat),
    {
        match &self.target {
            LaunchTarget::Matchmake => {
                let mut url = String::from_str(
                    "https://assetgame.roblox.com/game/PlaceLauncher.ashx?request=RequestGame&browserTrackerId=",
                );
                push_decimal(&mut url, tracker);
                url.append("&placeId=");
                url.append(self.place_id.as_str());
                url.append("&isPlayTogetherGame=false");
                url
            },
            LaunchTarget::RejoinServer { job_id } => {
                let mut url = String::from_str(
                    "https://assetgame.roblox.com/game/PlaceLauncher.ashx?request=RequestGameJob&browserTrackerId=",
                );
                push_decimal(&mut url, tracker);
                url.append("&placeId=");
                url.append(self.place_id.as_str());
                url.append("&gameId=");
                url.append(job_id.as_str());
                url.append("&isPlayTogetherGame=false&isTeleport=true");
                url
            },
            LaunchTarget::JoinPrivate { access_code, link_code } => {
                let mut url = String::from_str(
                    "https://assetgame.roblox.com/game/PlaceLauncher.ashx?request=RequestPrivateGame&placeId=",
                );
                url.append(self.place_id.as_str());
                url.append("&accessCode=");
                url.append(access_code.as_str());
                match link_code {
                    Some(link) => {
                        url.append("&linkCode=");
                        url.append(link.as_str());
                    },
                    None => {},
                }
                url
            },
        }
    }

    /// The descriptor for a ticket, a launch time and a tracker.
    pub fn descriptor_at(&self, ticket: &str, launch_time: i64, tracker: u64) -> (text: String)
        ensures
            text@ == descriptor(*self, ticket@, launch_time as int, tracker as nat),
    {
        let mut text = String::from_str("roblox-player:1+launchmode:play+gameinfo:");
        text.append(ticket);
        text.append("+launchtime:");
        push_signed_decimal(&mut text, launch_time);
        text.append("+placelauncherurl:");
        let url = self.locator_url(tracker);
        let encoded = url_encode(url.as_str());
        text.append(encoded.as_str());
        text.append("+browsertrackerid:");
        push_decimal(&mut text, tracker);
        text.append("+robloxLocale:en_us+gameLocale:en_us+channel:+LaunchExp:InApp");
        text
    }

    /// The descriptor for a ticket and a launch time, with a freshly drawn
    /// tracker below `TRACKER_BOUND`. The launch time is the caller's
    /// reading of the clock, in milliseconds since the Unix epoch.
    pub fn build(&self, ticket: &str, launch_time: i64) -> (text: String)
        ensures
            exists|tracker: nat|
                tracker < TRACKER_BOUND && text@ == #[trigger] descriptor(
                    *self,
                    ticket@,
                    launch_time as int,
                    tracker,
                ),
    {
        let tracker = random_u64() % TRACKER_BOUND;
        self.descriptor_at(ticket, launch_time, tracker)
    }
}

/// Where a launch stands.
#[derive(Clone, Copy, Debug, PartialEq, Eq, Structural)]
pub enum LaunchPhase {
    /// Nothing done yet.
    Ready,
    /// Running clients are being terminated.
    Settling,
    /// The ticket handshake is under way.
    Ticketing,
    /// The descriptor was handed over to be started.
    Spawning,
    /// Over, whichever way.
    Finished,
}

/// What the caller reports back to a launch.
#[derive(Clone, Debug, PartialEq, Eq)]
pub enum LaunchEvent {
    /// Begin.
    Start,
    /// Running clients are gone and the settle delay has passed.
    ClientsTerminated,
    /// What became of the request last sent.
    Broker(BrokerEvent),
    /// The client was started.
    Spawned,
    /// The client could not be started.
    SpawnFailed(String),
}

/// What the caller of a launch is to do next.
#[derive(Debug, PartialEq, Eq)]
pub enum LaunchCommand {
    /// Terminate every running client by force, wait this long, report back.
    TerminateClients { settle_millis: u64 },
    /// Send this and report the answer.
    Send(HttpRequest),
    /// Hand this descriptor to the system to start the client.
    Spawn(String),
    /// Stop: this is the result.
    Finish(Result<(), NexusError>),
}

/// A launch command with its texts as sequences of characters.
pub enum LaunchCommandText {
    TerminateClients { settle_millis: u64 },
    Send(RequestText),
    Spawn(Seq<char>),
    Finish(Result<(), Failure>),
}

impl View for LaunchCommand {
    type V = LaunchCommandText;

    open spec fn view(&self) -> LaunchCommandText {
        match *self {
            LaunchCommand::TerminateClients { settle_millis } => LaunchCommandText::TerminateClients {
                settle_millis,
            },
            LaunchCommand::Send(request) => LaunchCommandText::Send(request@),
            LaunchCommand::Spawn(text) => LaunchCommandText::Spawn(text@),
            LaunchCommand::Finish(Ok(())) => LaunchCommandText::Finish(Ok(())),
            LaunchCommand::Finish(Err(error)) => LaunchCommandText::Finish(Err(error@)),
        }
    }
}

/// A launch under way: what is wanted, and how far it has come.
#[derive(Clone, Debug, PartialEq, Eq)]
pub struct Launch {
    pub intent: LaunchIntent,
    pub phase: LaunchPhase,
    pub broker: BrokerState,
}

/// The failure reported when a handshake ends well without a ticket.
pub open spec fn no_ticket() -> Failure {
    Failure::TransportFailure("No authentication ticket in response"@)
}

/// The failure reported when the client could not be started.
pub open spec fn spawn_failure(detail: Seq<char>) -> Failure {
    Failure::TransportFailure("Failed to launch: "@ + detail)
}

/// What a step of the ticket handshake means for the launch: a request is
/// passed on, a ticket becomes the descriptor to start, a failure ends it.
pub open spec fn after_handshake(
    intent: LaunchIntent,
    step: (BrokerState, CommandText),
    launch_time: int,
    tracker: nat,
) -> (LaunchPhase, BrokerState, LaunchCommandText) {
    match step.1 {
        CommandText::Send(request) => (
            LaunchPhase::Ticketing,
            step.0,
            LaunchCommandText::Send(request),
        ),
        CommandText::Finish(Ok(OutcomeText::Ticket(ticket))) => (
            LaunchPhase::Spawning,
            step.0,
            LaunchCommandText::Spawn(descriptor(intent, ticket, launch_time, tracker)),
        ),
        CommandText::Finish(Ok(_)) => (
            LaunchPhase::Finished,
            step.0,
            LaunchCommandText::Finish(Err(no_ticket())),
        ),
        CommandText::Finish(Err(failure)) => (
            LaunchPhase::Finished,
            step.0,
            LaunchCommandText::Finish(Err(failure)),
        ),
    }
}

/// One step of a launch, for the launch time and tracker that a descriptor
/// would be stamped with.
///
/// A launch that is not multi-instance begins by having running clients
/// terminated and waiting for the settle delay; a multi-instance launch goes
/// straight to the ticket handshake.
pub open spec fn launch_step(
    intent: LaunchIntent,
    phase: LaunchPhase,
    broker: BrokerState,
    event: LaunchEvent,
    launch_time: int,
    tracker: nat,
) -> (LaunchPhase, BrokerState, LaunchCommandText) {
    match (phase, event) {
        (LaunchPhase::Ready, LaunchEvent::Start) => if intent.multi_instance {
            after_handshake(
                intent,
                next_step(AccountAction::LaunchTicket, intent.cookie@, broker, BrokerEvent::Start),
                launch_time,
                tracker,
            )
        } else {
            (
                LaunchPhase::Settling,
                broker,
                LaunchCommandText::TerminateClients { settle_millis: SETTLE_MILLIS },
            )
        },
        (LaunchPhase::Settling, LaunchEvent::ClientsTerminated) => after_handshake(
            intent,
            next_step(AccountAction::LaunchTicket, intent.cookie@, broker, BrokerEvent::Start),
            launch_time,
            tracker,
        ),
        (LaunchPhase::Ticketing, LaunchEvent::Broker(report)) => after_handshake(
            intent,
            next_step(AccountAction::LaunchTicket, intent.cookie@, broker, report),
            launch_time,
            tracker,
        ),
        (LaunchPhase::Spawning, LaunchEvent::Spawned) => (
            LaunchPhase::Finished,
            broker,
            LaunchCommandText::Finish(Ok(())),
        ),
        (LaunchPhase::Spawning, LaunchEvent::SpawnFailed(detail)) => (
            LaunchPhase::Finished,
            broker,
            LaunchCommandText::Finish(Err(spawn_failure(detail@))),
        ),
        _ => (LaunchPhase::Finished, broker, LaunchCommandText::Finish(Err(out_of_turn()))),
    }
}

/// A launch that is not multi-instance hands nothing over before running
/// clients are terminated: its first step commands the termination with the
/// settle delay, or ends the launch, and no phase but `Settling`, `Ticketing`
/// and a multi-instance `Ready` ever commands a start.
pub proof fn lemma_terminate_before_handoff(
    intent: LaunchIntent,
    phase: LaunchPhase,
    broker: BrokerState,
    event: LaunchEvent,
    launch_time: int,
    tracker: nat,
)
    ensures
        ({
            let next = launch_step(intent, phase, broker, event, launch_time, tracker);
            &&& phase == LaunchPhase::Ready && !intent.multi_instance ==> next.2
                == (LaunchCommandText::TerminateClients { settle_millis: SETTLE_MILLIS })
                || next.2 is Finish
            &&& next.0 == LaunchPhase::Settling <==> phase == LaunchPhase::Ready
                && !intent.multi_instance && event is Start
            &&& next.2 is Spawn ==> next.0 == LaunchPhase::Spawning && (phase
                == LaunchPhase::Settling || phase == LaunchPhase::Ticketing || (phase
                == LaunchPhase::Ready && intent.multi_instance))
            &&& next.2 is Finish <==> next.0 == LaunchPhase::Finished
        }),
{
}

/// The report that a launch event carries on to the ticket handshake, where
/// it carries one on: the start of a multi-instance launch and the end of the
/// settle delay begin the handshake, and a report during it is passed on.
pub open spec fn handshake_report(
    intent: LaunchIntent,
    phase: LaunchPhase,
    event: LaunchEvent,
) -> Option<BrokerEvent> {
    match (phase, event) {
        (LaunchPhase::Ready, LaunchEvent::Start) => if intent.multi_instance {
            Some(BrokerEvent::Start)
        } else {
            None
        },
        (LaunchPhase::Settling, LaunchEvent::ClientsTerminated) => Some(BrokerEvent::Start),
        (LaunchPhase::Ticketing, LaunchEvent::Broker(report)) => Some(report),
        _ => None,
    }
}

impl Launch {
    /// A launch that has not begun.
    pub fn new(intent: LaunchIntent) -> (launch: Launch)
        ensures
            launch.intent == intent,
            launch.phase == LaunchPhase::Ready,
            launch.broker == BrokerState::Ready,
    {
        Launch { intent, phase: LaunchPhase::Ready, broker: BrokerState::Ready }
    }

    /// Whether the launch is over.
    pub fn is_finished(&self) -> (done: bool)
        ensures
            done == (self.phase == LaunchPhase::Finished),
    {
        self.phase == LaunchPhase::Finished
    }

    /// Passes the report of a launch event on to the ticket handshake and
    /// turns the handshake's command into one of the launch.
    fn ticket_step(
        &mut self,
        report: BrokerEvent,
        launch_time: i64,
        Ghost(event): Ghost<LaunchEvent>,
    ) -> (command: LaunchCommand)
        requires
            handshake_report(old(self).intent, old(self).phase, event) == Some(report),
        ensures
            final(self).intent == old(self).intent,
            exists|tracker: nat|
                tracker < TRACKER_BOUND && (final(self).phase, final(self).broker, command@)
                    == #[trigger] launch_step(
                    old(self).intent,
                    old(self).phase,
                    old(self).broker,
                    event,
                    launch_time as int,
                    tracker,
                ),
    {
        let ghost step = next_step(
            AccountAction::LaunchTicket,
            self.intent.cookie@,
            self.broker,
            report,
        );
        assert(forall|tracker: nat|
            #[trigger] launch_step(
                self.intent,
                self.phase,
                self.broker,
                event,
                launch_time as int,
                tracker,
            ) == after_handshake(self.intent, step, launch_time as int, tracker));
        let action = AccountAction::LaunchTicket;
        let (broker, order) = advance(&action, self.intent.cookie.as_str(), self.broker, report);
        self.broker = broker;
        let ghost mut tracker: nat = 0;
        let command = match order {
            BrokerCommand::Send(request) => {
                self.phase = LaunchPhase::Ticketing;
                LaunchCommand::Send(request)
            },
            BrokerCommand::Finish(Ok(ActionOutcome::Ticket(ticket))) => {
                self.phase = LaunchPhase::Spawning;
                let text = self.intent.build(ticket.as_str(), launch_time);
                proof {
                    tracker = choose|tracker: nat|
                        tracker < TRACKER_BOUND && text@ == #[trigger] descriptor(
                            self.intent,
                            ticket@,
                            launch_time as int,
                            tracker,
                        );
                }
                LaunchCommand::Spawn(text)
            },
            BrokerCommand::Finish(Ok(_)) => {
                self.phase = LaunchPhase::Finished;
                LaunchCommand::Finish(
                    Err(
                        NexusError::TransportFailure(
                            String::from_str("No authentication ticket in response"),
                        ),
                    ),
                )
            },
            BrokerCommand::Finish(Err(error)) => {
                self.phase = LaunchPhase::Finished;
                LaunchCommand::Finish(Err(error))
            },
        };
        assert((self.phase, self.broker, command@) == after_handshake(
            self.intent,
            step,
            launch_time as int,
            tracker,
        ));
        assert((self.phase, self.broker, command@) == launch_step(
            old(self).intent,
            old(self).phase,
            old(self).broker,
            event,
            launch_time as int,
            tracker,
        ));
        command
    }

    /// Takes one event, with the caller's reading of the clock in
    /// milliseconds since the Unix epoch, and says what to do next.
    ///
    /// The intent never changes. Phase, handshake state and command are
    /// those of `launch_step` for the launch time given and some tracker
    /// below `TRACKER_BOUND`; time and tracker matter only where the command
    /// is to start the client.
    pub fn step(&mut self, event: LaunchEvent, launch_time: i64) -> (command: LaunchCommand)
        ensures
            final(self).intent == old(self).intent,
            exists|tracker: nat|
                tracker < TRACKER_BOUND && (final(self).phase, final(self).broker, command@)
                    == #[trigger] launch_step(
                    old(self).intent,
                    old(self).phase,
                    old(self).broker,
                    event,
                    launch_time as int,
                    tracker,
                ),
    {
        let ghost given = event;
        let phase = self.phase;
        let command = match (phase, event) {
            (LaunchPhase::Ready, LaunchEvent::Start) => {
                if self.intent.multi_instance {
                    return self.ticket_step(BrokerEvent::Start, launch_time, Ghost(given));
                }
                self.phase = LaunchPhase::Settling;
                LaunchCommand::TerminateClients { settle_millis: SETTLE_MILLIS }
            },
            (LaunchPhase::Settling, LaunchEvent::ClientsTerminated) => {
                return self.ticket_step(BrokerEvent::Start, launch_time, Ghost(given));
            },
            (LaunchPhase::Ticketing, LaunchEvent::Broker(report)) => {
                return self.ticket_step(report, launch_time, Ghost(given));
            },
            (LaunchPhase::Spawning, LaunchEvent::Spawned) => {
                self.phase = LaunchPhase::Finished;
                LaunchCommand::Finish(Ok(()))
            },
            (LaunchPhase::Spawning, LaunchEvent::SpawnFailed(detail)) => {
                self.phase = LaunchPhase::Finished;
                let mut text = String::from_str("Failed to launch: ");
                text.append(detail.as_str());
                LaunchCommand::Finish(Err(NexusError::TransportFailure(text)))
            },
            _ => {
                self.phase = LaunchPhase::Finished;
                LaunchCommand::Finish(
                    Err(
                        NexusError::TransportFailure(
                            String::from_str("Unexpected event for this step of the handshake"),
                        ),
                    ),
                )
            },
        };
        assert((self.phase, self.broker, command@) == launch_step(
            old(self).intent,
            old(self).phase,
            old(self).broker,
            given,
            launch_time as int,
            0,
        ));
        command
    }
}

} // verus!
