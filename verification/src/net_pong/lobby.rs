//! The lobby panel: hosting, joining, and every connection event the
//! multiplayer layer can raise.  The engine performs the networking; what
//! each outcome does to the buttons, the status labels and the running
//! game is decided and proved here.

use vstd::prelude::*;

verus! {

/// The port a game is hosted on.
pub const DEFAULT_PORT: i32 = 8910;

/// Pong is a two-player game: the server accepts a single client.
pub const MAX_CLIENTS: i32 = 1;

/// Which role the window title announces after the session is set up.
#[derive(Clone, Copy, PartialEq, Eq, Structural, Debug)]
pub enum TitleRole {
    Server,
    Client,
}

/// The lobby's state, mirrored onto the panel's widgets: exactly one of
/// the two status labels carries text at a time.
pub struct Lobby {
    /// Both the host and the join button are disabled while hosting.
    pub buttons_disabled: bool,
    pub status_ok: String,
    pub status_fail: String,
    /// The port-forwarding hint and the public-IP link, shown only to a
    /// host.
    pub port_forward_visible: bool,
    /// A network peer object has been created.
    pub peer: bool,
    /// That peer is installed as the session's multiplayer peer.
    pub attached: bool,
    pub in_game: bool,
    pub panel_visible: bool,
}

impl Lobby {
    /// A fresh lobby: panel shown, everything else idle.
    pub fn init() -> (l: Lobby)
        ensures
            !l.buttons_disabled,
            l.status_ok@ == Seq::<char>::empty(),
            l.status_fail@ == Seq::<char>::empty(),
            !l.port_forward_visible,
            !l.peer,
            !l.attached,
            !l.in_game,
            l.panel_visible,
    {
        Lobby {
            buttons_disabled: false,
            status_ok: String::new(),
            status_fail: String::new(),
            port_forward_visible: false,
            peer: false,
            attached: false,
            in_game: false,
            panel_visible: true,
        }
    }

    /// Show a status: on the green label when things went well, on the
    /// red one otherwise; the other label is cleared.
    pub fn set_status(&mut self, text: String, is_ok: bool)
        ensures
            is_ok ==> final(self).status_ok@ == text@ && final(self).status_fail@ == Seq::<
                char,
            >::empty(),
            !is_ok ==> final(self).status_ok@ == Seq::<char>::empty() && final(self).status_fail@
                == text@,
            final(self).buttons_disabled == old(self).buttons_disabled,
            final(self).port_forward_visible == old(self).port_forward_visible,
            final(self).peer == old(self).peer,
            final(self).attached == old(self).attached,
            final(self).in_game == old(self).in_game,
            final(self).panel_visible == old(self).panel_visible,
    {
        if is_ok {
            self.status_ok = text;
            self.status_fail = String::new();
        } else {
            self.status_ok = String::new();
            self.status_fail = text;
        }
    }

    /// A session ended: free the running game if there is one and show
    /// the panel again, detach the peer, re-enable the buttons, and
    /// report why on the red label.
    pub fn end_game(&mut self, with_error: String)
        ensures
            !final(self).in_game,
            final(self).panel_visible == (old(self).in_game || old(self).panel_visible),
            !final(self).attached,
            !final(self).buttons_disabled,
            final(self).status_ok@ == Seq::<char>::empty(),
            final(self).status_fail@ == with_error@,
            final(self).port_forward_visible == old(self).port_forward_visible,
            final(self).peer == old(self).peer,
    {
        if self.in_game {
            self.in_game = false;
            self.panel_visible = true;
        }
        self.attached = false;
        self.buttons_disabled = false;
        self.set_status(with_error, false);
    }

    /// The host button: a server was requested on the default port (the
    /// engine already answered whether the port could be taken).  On
    /// failure only the red label changes; on success the lobby locks its
    /// buttons, waits, and shows the hosting hints.  Returns whether
    /// hosting started, and then the window title announces the role.
    pub fn on_host_pressed(&mut self, create_server_ok: bool) -> (title: Option<TitleRole>)
        ensures
            final(self).peer,
            title == if create_server_ok {
                Option::Some(TitleRole::Server)
            } else {
                Option::None::<TitleRole>
            },
            !create_server_ok ==> {
                &&& final(self).status_ok@ == Seq::<char>::empty()
                &&& final(self).status_fail@ == "Can't host, address in use."@
                &&& final(self).buttons_disabled == old(self).buttons_disabled
                &&& final(self).attached == old(self).attached
                &&& final(self).port_forward_visible == old(self).port_forward_visible
            },
            create_server_ok ==> {
                &&& final(self).attached
                &&& final(self).buttons_disabled
                &&& final(self).status_ok@ == "Waiting for player..."@
                &&& final(self).status_fail@ == Seq::<char>::empty()
                &&& final(self).port_forward_visible
            },
            final(self).in_game == old(self).in_game,
            final(self).panel_visible == old(self).panel_visible,
    {
        self.peer = true;
        if !create_server_ok {
            self.set_status(String::from_str("Can't host, address in use."), false);
            return None;
        }
        self.attached = true;
        self.buttons_disabled = true;
        self.set_status(String::from_str("Waiting for player..."), true);
        self.port_forward_visible = true;
        Some(TitleRole::Server)
    }

    /// The join button: with a malformed address only the red label
    /// changes; otherwise a client peer connects to the typed address and
    /// the lobby waits for the server.
    pub fn on_join_pressed(&mut self, ip_valid: bool) -> (title: Option<TitleRole>)
        ensures
            title == if ip_valid {
                Option::Some(TitleRole::Client)
            } else {
                Option::None::<TitleRole>
            },
            !ip_valid ==> {
                &&& final(self).status_ok@ == Seq::<char>::empty()
                &&& final(self).status_fail@ == "IP address is invalid."@
                &&& final(self).peer == old(self).peer
                &&& final(self).attached == old(self).attached
            },
            ip_valid ==> {
                &&& final(self).peer
                &&& final(self).attached
                &&& final(self).status_ok@ == "Connecting..."@
                &&& final(self).status_fail@ == Seq::<char>::empty()
            },
            final(self).buttons_disabled == old(self).buttons_disabled,
            final(self).port_forward_visible == old(self).port_forward_visible,
            final(self).in_game == old(self).in_game,
            final(self).panel_visible == old(self).panel_visible,
    {
        if !ip_valid {
            self.set_status(String::from_str("IP address is invalid."), false);
            return None;
        }
        self.peer = true;
        self.attached = true;
        self.set_status(String::from_str("Connecting..."), true);
        Some(TitleRole::Client)
    }

    /// A peer connected: the game starts and the lobby hides.
    pub fn on_peer_connected(&mut self)
        ensures
            final(self).in_game,
            !final(self).panel_visible,
            final(self).buttons_disabled == old(self).buttons_disabled,
            final(self).status_ok@ == old(self).status_ok@,
            final(self).status_fail@ == old(self).status_fail@,
            final(self).port_forward_visible == old(self).port_forward_visible,
            final(self).peer == old(self).peer,
            final(self).attached == old(self).attached,
    {
        self.in_game = true;
        self.panel_visible = false;
    }

    /// A peer dropped: a server lost its client, a client its server.
    pub fn on_peer_disconnected(&mut self, is_server: bool)
        ensures
            !final(self).in_game,
            !final(self).attached,
            !final(self).buttons_disabled,
            final(self).panel_visible == (old(self).in_game || old(self).panel_visible),
            final(self).status_ok@ == Seq::<char>::empty(),
            is_server ==> final(self).status_fail@ == "Client disconnected."@,
            !is_server ==> final(self).status_fail@ == "Server disconnected."@,
            final(self).port_forward_visible == old(self).port_forward_visible,
            final(self).peer == old(self).peer,
    {
        if is_server {
            self.end_game(String::from_str("Client disconnected."));
        } else {
            self.end_game(String::from_str("Server disconnected."));
        }
    }

    /// Connecting failed: report it, drop the peer from the session, and
    /// free the buttons.
    pub fn on_connection_failed(&mut self)
        ensures
            final(self).status_ok@ == Seq::<char>::empty(),
            final(self).status_fail@ == "Couldn't connect."@,
            !final(self).attached,
            !final(self).buttons_disabled,
            final(self).in_game == old(self).in_game,
            final(self).panel_visible == old(self).panel_visible,
            final(self).port_forward_visible == old(self).port_forward_visible,
            final(self).peer == old(self).peer,
    {
        self.set_status(String::from_str("Couldn't connect."), false);
        self.attached = false;
        self.buttons_disabled = false;
    }

    /// The server went away while in game.
    pub fn on_server_disconnected(&mut self)
        ensures
            !final(self).in_game,
            !final(self).attached,
            !final(self).buttons_disabled,
            final(self).panel_visible == (old(self).in_game || old(self).panel_visible),
            final(self).status_ok@ == Seq::<char>::empty(),
            final(self).status_fail@ == "Server disconnected."@,
            final(self).port_forward_visible == old(self).port_forward_visible,
            final(self).peer == old(self).peer,
    {
        self.end_game(String::from_str("Server disconnected."));
    }

    /// The running game reported that it finished: tear it down.
    pub fn on_game_finished(&mut self)
        ensures
            !final(self).in_game,
            !final(self).attached,
            !final(self).buttons_disabled,
            final(self).panel_visible == (old(self).in_game || old(self).panel_visible),
            final(self).status_ok@ == Seq::<char>::empty(),
            final(self).status_fail@ == "Client disconnected."@,
            final(self).port_forward_visible == old(self).port_forward_visible,
            final(self).peer == old(self).peer,
    {
        self.end_game(String::from_str("Client disconnected."));
    }
}

} // verus!
