//! The client's connection flow: which screen it shows, the name waiting
//! to be sent, and the failure it reports, as the player's intents and the
//! network's events arrive.
use vstd::prelude::*;
use crate::items::opt_text;
use crate::text::owned;

verus! {

/// The screen the client shows. `Paused` is only an overlay: it stops
/// neither the simulation nor the network.
#[derive(Debug, Clone, Copy, PartialEq, Eq, Structural)]
pub enum Screen {
    MainMenu,
    Settings,
    Connecting,
    InGame,
    Paused,
}

/// What the player asked the connection to do.
#[derive(Debug)]
pub enum ConnectionIntent {
    Connect { player_name: String },
    Disconnect,
}

/// The client's connection state.
#[derive(Debug)]
pub struct ClientSession {
    pub screen: Screen,
    /// The intent not yet acted on.
    pub request: Option<ConnectionIntent>,
    /// The validated name waiting for the link to connect.
    pub pending_name: Option<String>,
    /// Why the last connection failed, for the menu to show.
    pub failure: Option<String>,
}

/// The message shown when the network client cannot be created.
pub open spec fn start_failure_text() -> Seq<char> {
    "Unable to start the network client."@
}

impl ClientSession {
    /// The state at start-up: the main menu, nothing asked, nothing pending.
    pub fn new() -> (s: ClientSession)
        ensures
            s.screen == Screen::MainMenu,
            s.request is None,
            s.pending_name is None,
            s.failure is None,
    {
        ClientSession { screen: Screen::MainMenu, request: None, pending_name: None, failure: None }
    }
}

/// Takes a pending connect intent. The intent is consumed and the last
/// failure cleared; the name comes back only when no client link exists yet
/// (a second click on Play does not open a second connection). Nothing
/// changes when the pending intent is not a connect.
pub fn take_connect_intent(session: &mut ClientSession, client_exists: bool) -> (name: Option<String>)
    ensures
        !(old(session).request matches Some(ConnectionIntent::Connect { .. })) ==> name is None && *final(session) == *old(session),
        old(session).request matches Some(ConnectionIntent::Connect { player_name }) ==> {
            &&& final(session).request is None
            &&& final(session).failure is None
            &&& final(session).screen == old(session).screen
            &&& opt_text(final(session).pending_name) == opt_text(old(session).pending_name)
            &&& client_exists ==> name is None
            &&& !client_exists ==> (name matches Some(n) && n@ == player_name@)
        },
{
    let is_connect = match &session.request {
        Some(ConnectionIntent::Connect { .. }) => true,
        _ => false,
    };
    if !is_connect {
        return None;
    }
    let request = session.request.take();
    session.failure = None;
    let name = match request {
        Some(ConnectionIntent::Connect { player_name }) => player_name,
        _ => String::new(),
    };
    if client_exists {
        return None;
    }
    Some(name)
}

/// Records the outcome of starting the network client for `name`: on
/// success the name waits for the link to connect and the client shows the
/// connecting screen; on failure the menu shows why.
pub fn connection_started(session: &mut ClientSession, name: String, started: bool)
    ensures
        final(session).request == old(session).request,
        started ==> final(session).screen == Screen::Connecting && opt_text(final(session).pending_name)
            == Some(name@) && opt_text(final(session).failure) == opt_text(old(session).failure),
        !started ==> final(session).screen == Screen::MainMenu && opt_text(final(session).failure)
            == Some(start_failure_text()) && opt_text(final(session).pending_name) == opt_text(
            old(session).pending_name,
        ),
{
    if started {
        session.pending_name = Some(name);
        session.screen = Screen::Connecting;
    } else {
        proof {
            reveal_strlit("Unable to start the network client.");
        }
        session.failure = Some(owned("Unable to start the network client."));
        session.screen = Screen::MainMenu;
    }
}

/// Takes a pending disconnect intent, and says whether there is a link to
/// disconnect. Nothing changes when the pending intent is not a disconnect.
pub fn take_disconnect_intent(session: &mut ClientSession, client_exists: bool) -> (disconnect: bool)
    ensures
        !(old(session).request matches Some(ConnectionIntent::Disconnect)) ==> !disconnect && *final(session) == *old(session),
        old(session).request matches Some(ConnectionIntent::Disconnect) ==> final(session).request is None
            && final(session).screen == old(session).screen && final(session).pending_name == old(session).pending_name && final(session).failure == old(session).failure && disconnect == client_exists,
{
    let is_disconnect = match &session.request {
        Some(ConnectionIntent::Disconnect) => true,
        _ => false,
    };
    if !is_disconnect {
        return false;
    }
    session.request = None;
    client_exists
}

/// The link connected: the waiting name is sent as the join request and the
/// client enters the game. `None` (and no change) when the link cannot send
/// or no name is waiting.
pub fn on_connected(session: &mut ClientSession, can_send: bool) -> (join_name: Option<String>)
    ensures
        !can_send || old(session).pending_name is None ==> join_name is None && *final(session) == *old(session),
        can_send && old(session).pending_name is Some ==> opt_text(join_name) == opt_text(
            old(session).pending_name,
        ) && final(session).screen == Screen::InGame && final(session).pending_name == old(session).pending_name && final(session).failure == old(session).failure && final(session).request
            == old(session).request,
{
    if !can_send {
        return None;
    }
    let name = match &session.pending_name {
        Some(n) => n.clone(),
        None => {
            return None;
        },
    };
    session.screen = Screen::InGame;
    Some(name)
}

/// The link disconnected. A link that never connected and was not asked to
/// disconnect reports no reason on creation, and that is not a failure:
/// nothing changes and `false` comes back. Otherwise the waiting name is
/// dropped, a reason becomes the failure shown, the menu returns, and `true`
/// says the link is to be cleaned up.
pub fn on_disconnected(session: &mut ClientSession, reason: Option<String>, link_was_active: bool) -> (cleanup: bool)
    ensures
        reason is None && !link_was_active ==> !cleanup && *final(session) == *old(session),
        !(reason is None && !link_was_active) ==> {
            &&& cleanup
            &&& final(session).pending_name is None
            &&& final(session).screen == Screen::MainMenu
            &&& final(session).request == old(session).request
            &&& reason is Some ==> opt_text(final(session).failure) == opt_text(reason)
            &&& reason is None ==> final(session).failure == old(session).failure
        },
{
    if reason.is_none() && !link_was_active {
        return false;
    }
    session.pending_name = None;
    match reason {
        Some(r) => {
            session.failure = Some(r);
        },
        None => {},
    }
    session.screen = Screen::MainMenu;
    true
}

/// Whether spell keys act on this screen: in game, or paused over the game.
pub fn accepts_spell_keys(screen: Screen) -> (b: bool)
    ensures
        b == (screen == Screen::InGame || screen == Screen::Paused),
{
    match screen {
        Screen::InGame | Screen::Paused => true,
        _ => false,
    }
}

} // verus!
