//! The connection session: the live network handle (modelled by its
//! generation number), the current topic, the diagnostic log, and the
//! handling of network protocol events.
//!
//! The overlay network library performs the actual I/O. This module decides
//! what each operation appends to the diagnostic log and which command the
//! surrounding runtime must issue against the live handle.

use vstd::prelude::*;
use vstd::string::StringExecFns;

use crate::app::{App, AppModel, ChatMessage, ChatMessageModel};
use crate::utils::lemma_map_values_push;

verus! {

/// The identity of a peer on the overlay, held as its canonical text.
#[derive(Clone, Debug, PartialEq, Eq)]
pub struct PeerId(pub String);

impl View for PeerId {
    type V = Seq<char>;

    open spec fn view(&self) -> Seq<char> {
        self.0@
    }
}

impl PeerId {
    /// A copy of the identity, with the same text.
    pub fn duplicate(&self) -> (r: PeerId)
        ensures
            r@ == self@,
    {
        PeerId(self.0.clone())
    }
}

/// The text of an optional peer identity.
pub open spec fn peer_opt_view(p: Option<PeerId>) -> Option<Seq<char>> {
    match p {
        Some(q) => Some(q@),
        None => None,
    }
}

/// The live network session handle. The real handle is owned by the
/// surrounding runtime; the library tracks which incarnation is live by a
/// generation number, so that contracts can state that every operation is
/// issued against the currently live handle and never against a superseded
/// one.
#[derive(Clone, Copy, Debug, PartialEq, Eq, Structural)]
pub struct SwarmHandle {
    pub generation: u64,
}

/// A payload travelling over the wire.
pub enum Transmission {
    Message { message: ChatMessage },
}

/// The connection session: handle, topic, local identity and diagnostic log.
pub struct Connection {
    pub swarm: SwarmHandle,
    pub log: Vec<String>,
    pub current_topic: String,
    pub local_peer_id: PeerId,
}

/// Mathematical model of the connection session.
#[verifier::ext_equal]
pub struct ConnectionModel {
    pub swarm: SwarmHandle,
    pub log: Seq<Seq<char>>,
    pub current_topic: Seq<char>,
    pub local_peer_id: Seq<char>,
}

/// The texts of the diagnostic log entries.
pub open spec fn log_view(log: Seq<String>) -> Seq<Seq<char>> {
    log.map_values(|s: String| s@)
}

impl View for Connection {
    type V = ConnectionModel;

    open spec fn view(&self) -> ConnectionModel {
        ConnectionModel {
            swarm: self.swarm,
            log: log_view(self.log@),
            current_topic: self.current_topic@,
            local_peer_id: self.local_peer_id@,
        }
    }
}

/// An operation that the runtime must perform on the live network session.
/// Commands are produced by the verified dispatch functions; the runtime
/// executes them and reports failures back through the `record_*` and
/// `regenerate_*` functions.
pub enum SwarmCommand {
    /// Nothing to do.
    Idle,
    /// Broadcast the text (as its UTF-8 bytes) on the topic, via the handle
    /// of the stated generation.
    Publish { generation: u64, topic: String, text: String },
    /// Request a connection to the address (in canonical multiaddress text),
    /// via the handle of the stated generation.
    Dial { generation: u64, address: String },
    /// Tear down the current handle and build a fresh one.
    Regenerate,
}

/// Mathematical model of a command.
#[verifier::ext_equal]
pub enum CommandModel {
    Idle,
    Publish { generation: u64, topic: Seq<char>, text: Seq<char> },
    Dial { generation: u64, address: Seq<char> },
    Regenerate,
}

impl View for SwarmCommand {
    type V = CommandModel;

    open spec fn view(&self) -> CommandModel {
        match self {
            SwarmCommand::Idle => CommandModel::Idle,
            SwarmCommand::Publish { generation, topic, text } => CommandModel::Publish {
                generation: *generation,
                topic: topic@,
                text: text@,
            },
            SwarmCommand::Dial { generation, address } => CommandModel::Dial {
                generation: *generation,
                address: address@,
            },
            SwarmCommand::Regenerate => CommandModel::Regenerate,
        }
    }
}

/// A protocol event surfaced by the overlay network, reduced to the plain
/// values the core reads from it.
pub enum NetworkEvent {
    /// The session announced a listening address.
    NewListenAddr { address: String },
    /// A chat message arrived on the subscribed topic.
    Message { propagation_source: PeerId, message_id: String, source: Option<PeerId>, data: Vec<u8> },
    /// Any other event of the pub-sub behaviour, as its description.
    Behaviour { description: String },
    /// A transport-level failure, as its description.
    TransportError { description: String },
    /// Anything else; ignored.
    Other,
}

/// Mathematical model of a protocol event.
#[verifier::ext_equal]
pub enum NetworkEventModel {
    NewListenAddr { address: Seq<char> },
    Message { propagation_source: Seq<char>, message_id: Seq<char>, source: Option<Seq<char>>, data: Seq<u8> },
    Behaviour { description: Seq<char> },
    TransportError { description: Seq<char> },
    Other,
}

impl View for NetworkEvent {
    type V = NetworkEventModel;

    open spec fn view(&self) -> NetworkEventModel {
        match self {
            NetworkEvent::NewListenAddr { address } => NetworkEventModel::NewListenAddr {
                address: address@,
            },
            NetworkEvent::Message { propagation_source, message_id, source, data } => NetworkEventModel::Message {
                propagation_source: propagation_source@,
                message_id: message_id@,
                source: peer_opt_view(*source),
                data: data@,
            },
            NetworkEvent::Behaviour { description } => NetworkEventModel::Behaviour {
                description: description@,
            },
            NetworkEvent::TransportError { description } => NetworkEventModel::TransportError {
                description: description@,
            },
            NetworkEvent::Other => NetworkEventModel::Other,
        }
    }
}

/// The outcome of parsing text as a network multiaddress: on success the
/// canonical text of the parsed address, on failure the text of the parse
/// error. Parsing is a pure function of the input text.
pub uninterp spec fn multiaddr_parse(s: Seq<char>) -> Result<Seq<char>, Seq<char>>;

/// Relies on the `FromStr` of `libp2p::Multiaddr` (with the `Display` of the
/// parsed address and of the parse error): parsing is a pure function of the
/// input text; the parsed address displays as its canonical text.
#[verifier::external_body]
pub(crate) fn parse_multiaddr(s: &str) -> (r: Result<String, String>)
    ensures
        r is Ok <==> multiaddr_parse(s@) is Ok,
        r matches Ok(a) ==> multiaddr_parse(s@) matches Ok(c) && a@ == c,
        r matches Err(e) ==> multiaddr_parse(s@) matches Err(m) && e@ == m,
{
    match s.parse::<libp2p::Multiaddr>() {
        Ok(addr) => Ok(addr.to_string()),
        Err(e) => Err(e.to_string()),
    }
}

/// The characters that a byte sequence decodes to under lossy UTF-8
/// decoding: a pure function of the bytes.
pub uninterp spec fn utf8_lossy_of(bytes: Seq<u8>) -> Seq<char>;

/// Relies on `String::from_utf8_lossy`: the decoding is a pure function of
/// the bytes, and valid UTF-8 input decodes exactly.
#[verifier::external_body]
pub(crate) fn utf8_lossy(bytes: &Vec<u8>) -> (r: String)
    ensures
        r@ == utf8_lossy_of(bytes@),
        vstd::utf8::valid_utf8(bytes@) ==> r@ == vstd::utf8::decode_utf8(bytes@),
{
    String::from_utf8_lossy(bytes).into_owned()
}

/// The session state right after creation: a first-generation handle, the
/// default topic, an empty log.
pub open spec fn initial_connection_model(local_peer_id: Seq<char>) -> ConnectionModel {
    ConnectionModel {
        swarm: SwarmHandle { generation: 0 },
        log: Seq::empty(),
        current_topic: "test-net"@,
        local_peer_id,
    }
}

/// The diagnostic-log text recorded when a dial is requested.
pub open spec fn dialing_entry(address: Seq<char>) -> Seq<char> {
    "dialing: "@ + address
}

/// The diagnostic-log text recorded when a requested dial fails.
pub open spec fn dial_failure_entry(address: Seq<char>, error: Seq<char>) -> Seq<char> {
    "dialing to addr "@ + address + " failed with Err "@ + error
}

/// The diagnostic-log text recorded when a publish fails.
pub open spec fn publish_failure_entry(error: Seq<char>) -> Seq<char> {
    "Publish error: "@ + error
}

/// The diagnostic-log text recorded when the address buffer does not parse
/// as a multiaddress.
pub open spec fn parse_failure_entry(error: Seq<char>) -> Seq<char> {
    "parsing input as MultiAddr failed with Err "@ + error
}

/// The diagnostic-log text recorded when rebuilding the session fails.
pub open spec fn regenerate_failure_entry(error: Seq<char>) -> Seq<char> {
    "regenerate_swarm() failed with Err "@ + error
}

impl Connection {
    /// A fresh session around a newly built network handle. The runtime
    /// builds the real handle (listening on an OS-chosen port, subscribed to
    /// the default topic) and passes in the local identity it reports.
    pub fn new(local_peer_id: PeerId) -> (c: Connection)
        ensures
            c@ == initial_connection_model(local_peer_id@),
    {
        let c = Connection {
            swarm: SwarmHandle { generation: 0 },
            log: Vec::new(),
            current_topic: String::from_str("test-net"),
            local_peer_id,
        };
        assert(c@ =~= initial_connection_model(c.local_peer_id@));
        c
    }

    /// Appends one entry to the diagnostic log; nothing else changes.
    pub fn push_log_entry(&mut self, message: &str)
        ensures
            final(self)@ == (ConnectionModel { log: old(self)@.log.push(message@), ..old(self)@ }),
    {
        let ghost prior = self.log@;
        self.log.push(message.to_owned());
        proof {
            lemma_map_values_push(prior, |s: String| s@, self.log@.last());
            assert(self@ =~= (ConnectionModel { log: old(self)@.log.push(message@), ..old(self)@ }));
        }
    }

    /// Requests a connection to `address` (canonical multiaddress text):
    /// records the attempt in the log, unconditionally, and hands back the
    /// dial command for the currently live handle.
    pub fn dial(&mut self, address: String) -> (cmd: SwarmCommand)
        ensures
            final(self)@ == (ConnectionModel {
                log: old(self)@.log.push(dialing_entry(address@)),
                ..old(self)@
            }),
            cmd@ == (CommandModel::Dial {
                generation: old(self)@.swarm.generation,
                address: address@,
            }),
    {
        let mut entry = String::from_str("dialing: ");
        entry.append(address.as_str());
        self.push_log_entry(entry.as_str());
        SwarmCommand::Dial { generation: self.swarm.generation, address }
    }

    /// Records a failed dial in the log; nothing else changes.
    pub fn record_dial_failure(&mut self, address: &str, error: &str)
        ensures
            final(self)@ == (ConnectionModel {
                log: old(self)@.log.push(dial_failure_entry(address@, error@)),
                ..old(self)@
            }),
    {
        let mut entry = String::from_str("dialing to addr ");
        entry.append(address);
        entry.append(" failed with Err ");
        entry.append(error);
        self.push_log_entry(entry.as_str());
    }

    /// Records a failed publish in the log; nothing else changes. In
    /// particular the chat history is untouched: the local echo recorded at
    /// dispatch stands regardless of the publish outcome.
    pub fn record_publish_failure(&mut self, error: &str)
        ensures
            final(self)@ == (ConnectionModel {
                log: old(self)@.log.push(publish_failure_entry(error@)),
                ..old(self)@
            }),
    {
        let mut entry = String::from_str("Publish error: ");
        entry.append(error);
        self.push_log_entry(entry.as_str());
    }

    /// Records that the runtime replaced the session with a freshly built
    /// handle: the live generation moves on, so commands issued before the
    /// regeneration can never be mistaken for commands against the new
    /// handle, and the local identity becomes the one the new handle
    /// reports. Everything else is untouched.
    pub fn regenerate_succeeded(&mut self, local_peer_id: PeerId)
        requires
            old(self).swarm.generation < u64::MAX,
        ensures
            final(self)@ == (ConnectionModel {
                swarm: (SwarmHandle { generation: (old(self)@.swarm.generation + 1) as u64 }),
                local_peer_id: local_peer_id@,
                ..old(self)@
            }),
    {
        self.swarm.generation = self.swarm.generation + 1;
        self.local_peer_id = local_peer_id;
        assert(self@ =~= (ConnectionModel {
            swarm: (SwarmHandle { generation: (old(self)@.swarm.generation + 1) as u64 }),
            local_peer_id: self.local_peer_id@,
            ..old(self)@
        }));
    }

    /// Records that rebuilding the session failed: the failure is logged and
    /// the previous handle stays live, so the application keeps a usable
    /// session.
    pub fn regenerate_failed(&mut self, error: &str)
        ensures
            final(self)@ == (ConnectionModel {
                log: old(self)@.log.push(regenerate_failure_entry(error@)),
                ..old(self)@
            }),
    {
        let mut entry = String::from_str("regenerate_swarm() failed with Err ");
        entry.append(error);
        self.push_log_entry(entry.as_str());
    }
}

/// What one protocol event does to the application state: a listening
/// announcement, a behaviour description or a transport error is appended to
/// the diagnostic log; a received chat message is appended to the log and,
/// as a chat message attributed to the event's reported source, to the
/// history; anything else is ignored.
pub open spec fn network_transition(m: AppModel, event: NetworkEventModel) -> AppModel {
    match event {
        NetworkEventModel::NewListenAddr { address } => AppModel {
            connection: ConnectionModel {
                log: m.connection.log.push("Listening on "@ + address),
                ..m.connection
            },
            ..m
        },
        NetworkEventModel::Message { propagation_source, message_id, source, data } => {
            let text = utf8_lossy_of(data);
            let entry = "Got message: "@ + text + " with id: "@ + message_id + " from peer: "@
                + propagation_source;
            AppModel {
                connection: ConnectionModel { log: m.connection.log.push(entry), ..m.connection },
                history: m.history.push(ChatMessageModel { source_peer_id: source, nick: None, text }),
                ..m
            }
        },
        NetworkEventModel::Behaviour { description } => AppModel {
            connection: ConnectionModel {
                log: m.connection.log.push(description),
                ..m.connection
            },
            ..m
        },
        NetworkEventModel::TransportError { description } => AppModel {
            connection: ConnectionModel {
                log: m.connection.log.push(description),
                ..m.connection
            },
            ..m
        },
        NetworkEventModel::Other => m,
    }
}

/// Law: every protocol event keeps the connection-log selection a valid
/// index into the log (or index zero on an empty log): handling an event
/// never shrinks the log and never moves the selection.
pub proof fn lemma_network_event_preserves_selection_range(m: AppModel, event: NetworkEventModel)
    requires
        crate::app::selection_in_range(m),
    ensures
        crate::app::selection_in_range(network_transition(m, event)),
{
}

/// Applies one protocol event to the application state, exactly as
/// `network_transition` describes. Handling never fails and never ends the
/// session: every failure an event reports becomes a diagnostic log entry.
pub fn handle_connection_event(connection_event: NetworkEvent, app: &mut App)
    ensures
        final(app)@ == network_transition(old(app)@, connection_event@),
{
    let ghost target = network_transition(old(app)@, connection_event@);
    match connection_event {
        NetworkEvent::NewListenAddr { address } => {
            let mut entry = String::from_str("Listening on ");
            entry.append(address.as_str());
            app.connection.push_log_entry(entry.as_str());
            assert(app@ =~= target);
        },
        NetworkEvent::Message { propagation_source, message_id, source, data } => {
            let text = utf8_lossy(&data);
            let mut entry = String::from_str("Got message: ");
            entry.append(text.as_str());
            entry.append(" with id: ");
            entry.append(message_id.as_str());
            entry.append(" from peer: ");
            entry.append(propagation_source.0.as_str());
            app.connection.push_log_entry(entry.as_str());
            let ghost prior_history = app.history@;
            app.history.push(ChatMessage::new(source, None, text));
            proof {
                lemma_map_values_push(
                    prior_history,
                    |msg: ChatMessage| msg@,
                    app.history@.last(),
                );
                assert(app@ =~= target);
            }
        },
        NetworkEvent::Behaviour { description } => {
            app.connection.push_log_entry(description.as_str());
            assert(app@ =~= target);
        },
        NetworkEvent::TransportError { description } => {
            app.connection.push_log_entry(description.as_str());
            assert(app@ =~= target);
        },
        NetworkEvent::Other => {
            assert(app@ =~= target);
        },
    }
}

} // verus!
