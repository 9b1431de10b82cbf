use vstd::prelude::*;
use crate::level::OCEAN_LENGTH;

verus! {

/// The kinds of message exchanged with the game server; each travels in an
/// envelope under its own name.
#[derive(Clone, Copy, PartialEq, Eq, Structural, Debug)]
pub enum MessageKind {
    NewPlayer,
    JoinedLobby,
    FullLobby,
    LoadOcean,
    PlayerUpdate,
    PlayerLeave,
    GotHereLate,
    UpdateEnemies,
    UpdatePlayers,
    SpawnEnemy,
    LeaveSuccess,
}

/// The name a message kind travels under.
pub open spec fn message_text(kind: MessageKind) -> Seq<char> {
    match kind {
        MessageKind::NewPlayer => "new_player"@,
        MessageKind::JoinedLobby => "joined_lobby"@,
        MessageKind::FullLobby => "full_lobby"@,
        MessageKind::LoadOcean => "load_ocean"@,
        MessageKind::PlayerUpdate => "player_update"@,
        MessageKind::PlayerLeave => "player_leave"@,
        MessageKind::GotHereLate => "got_here_late"@,
        MessageKind::UpdateEnemies => "update_enemies"@,
        MessageKind::UpdatePlayers => "update_players"@,
        MessageKind::SpawnEnemy => "spawn_enemy"@,
        MessageKind::LeaveSuccess => "leave_success"@,
    }
}

/// The kind whose name a text is, if any.
pub open spec fn spec_message_kind(text: Seq<char>) -> Option<MessageKind> {
    if text == message_text(MessageKind::NewPlayer) {
        Some(MessageKind::NewPlayer)
    } else if text == message_text(MessageKind::JoinedLobby) {
        Some(MessageKind::JoinedLobby)
    } else if text == message_text(MessageKind::FullLobby) {
        Some(MessageKind::FullLobby)
    } else if text == message_text(MessageKind::LoadOcean) {
        Some(MessageKind::LoadOcean)
    } else if text == message_text(MessageKind::PlayerUpdate) {
        Some(MessageKind::PlayerUpdate)
    } else if text == message_text(MessageKind::PlayerLeave) {
        Some(MessageKind::PlayerLeave)
    } else if text == message_text(MessageKind::GotHereLate) {
        Some(MessageKind::GotHereLate)
    } else if text == message_text(MessageKind::UpdateEnemies) {
        Some(MessageKind::UpdateEnemies)
    } else if text == message_text(MessageKind::UpdatePlayers) {
        Some(MessageKind::UpdatePlayers)
    } else if text == message_text(MessageKind::SpawnEnemy) {
        Some(MessageKind::SpawnEnemy)
    } else if text == message_text(MessageKind::LeaveSuccess) {
        Some(MessageKind::LeaveSuccess)
    } else {
        None
    }
}

/// The name a message kind travels under.
pub fn message_name(kind: MessageKind) -> (name: &'static str)
    ensures
        name@ == message_text(kind),
        // The names the game server uses.
        kind == MessageKind::NewPlayer ==> name@ == "new_player"@,
        kind == MessageKind::JoinedLobby ==> name@ == "joined_lobby"@,
        kind == MessageKind::FullLobby ==> name@ == "full_lobby"@,
        kind == MessageKind::LoadOcean ==> name@ == "load_ocean"@,
        kind == MessageKind::PlayerUpdate ==> name@ == "player_update"@,
        kind == MessageKind::PlayerLeave ==> name@ == "player_leave"@,
        kind == MessageKind::GotHereLate ==> name@ == "got_here_late"@,
        kind == MessageKind::UpdateEnemies ==> name@ == "update_enemies"@,
        kind == MessageKind::UpdatePlayers ==> name@ == "update_players"@,
        kind == MessageKind::SpawnEnemy ==> name@ == "spawn_enemy"@,
        kind == MessageKind::LeaveSuccess ==> name@ == "leave_success"@,
{
    match kind {
        MessageKind::NewPlayer => "new_player",
        MessageKind::JoinedLobby => "joined_lobby",
        MessageKind::FullLobby => "full_lobby",
        MessageKind::LoadOcean => "load_ocean",
        MessageKind::PlayerUpdate => "player_update",
        MessageKind::PlayerLeave => "player_leave",
        MessageKind::GotHereLate => "got_here_late",
        MessageKind::UpdateEnemies => "update_enemies",
        MessageKind::UpdatePlayers => "update_players",
        MessageKind::SpawnEnemy => "spawn_enemy",
        MessageKind::LeaveSuccess => "leave_success",
    }
}

/// Tells which kind of message an envelope's name announces; `None` for a
/// name the client does not know.
pub fn message_kind(message: &str) -> (kind: Option<MessageKind>)
    ensures
        kind == spec_message_kind(message@),
{
    let m = message.to_owned();
    if m == message_name(MessageKind::NewPlayer).to_owned() {
        Some(MessageKind::NewPlayer)
    } else if m == message_name(MessageKind::JoinedLobby).to_owned() {
        Some(MessageKind::JoinedLobby)
    } else if m == message_name(MessageKind::FullLobby).to_owned() {
        Some(MessageKind::FullLobby)
    } else if m == message_name(MessageKind::LoadOcean).to_owned() {
        Some(MessageKind::LoadOcean)
    } else if m == message_name(MessageKind::PlayerUpdate).to_owned() {
        Some(MessageKind::PlayerUpdate)
    } else if m == message_name(MessageKind::PlayerLeave).to_owned() {
        Some(MessageKind::PlayerLeave)
    } else if m == message_name(MessageKind::GotHereLate).to_owned() {
        Some(MessageKind::GotHereLate)
    } else if m == message_name(MessageKind::UpdateEnemies).to_owned() {
        Some(MessageKind::UpdateEnemies)
    } else if m == message_name(MessageKind::UpdatePlayers).to_owned() {
        Some(MessageKind::UpdatePlayers)
    } else if m == message_name(MessageKind::SpawnEnemy).to_owned() {
        Some(MessageKind::SpawnEnemy)
    } else if m == message_name(MessageKind::LeaveSuccess).to_owned() {
        Some(MessageKind::LeaveSuccess)
    } else {
        None
    }
}

/// Every kind of message travels under the name the game server gives it,
/// and reading that name gives the kind back.
pub proof fn lemma_server_message_names()
    ensures
        message_text(MessageKind::NewPlayer) == "new_player"@,
        message_text(MessageKind::JoinedLobby) == "joined_lobby"@,
        message_text(MessageKind::FullLobby) == "full_lobby"@,
        message_text(MessageKind::LoadOcean) == "load_ocean"@,
        message_text(MessageKind::PlayerUpdate) == "player_update"@,
        message_text(MessageKind::PlayerLeave) == "player_leave"@,
        message_text(MessageKind::GotHereLate) == "got_here_late"@,
        message_text(MessageKind::UpdateEnemies) == "update_enemies"@,
        message_text(MessageKind::UpdatePlayers) == "update_players"@,
        message_text(MessageKind::SpawnEnemy) == "spawn_enemy"@,
        message_text(MessageKind::LeaveSuccess) == "leave_success"@,
        spec_message_kind("new_player"@) == Some(MessageKind::NewPlayer),
        spec_message_kind("joined_lobby"@) == Some(MessageKind::JoinedLobby),
        spec_message_kind("full_lobby"@) == Some(MessageKind::FullLobby),
        spec_message_kind("load_ocean"@) == Some(MessageKind::LoadOcean),
        spec_message_kind("player_update"@) == Some(MessageKind::PlayerUpdate),
        spec_message_kind("player_leave"@) == Some(MessageKind::PlayerLeave),
        spec_message_kind("got_here_late"@) == Some(MessageKind::GotHereLate),
        spec_message_kind("update_enemies"@) == Some(MessageKind::UpdateEnemies),
        spec_message_kind("update_players"@) == Some(MessageKind::UpdatePlayers),
        spec_message_kind("spawn_enemy"@) == Some(MessageKind::SpawnEnemy),
        spec_message_kind("leave_success"@) == Some(MessageKind::LeaveSuccess),
{
    lemma_message_name_round_trip(MessageKind::NewPlayer);
    lemma_message_name_round_trip(MessageKind::JoinedLobby);
    lemma_message_name_round_trip(MessageKind::FullLobby);
    lemma_message_name_round_trip(MessageKind::LoadOcean);
    lemma_message_name_round_trip(MessageKind::PlayerUpdate);
    lemma_message_name_round_trip(MessageKind::PlayerLeave);
    lemma_message_name_round_trip(MessageKind::GotHereLate);
    lemma_message_name_round_trip(MessageKind::UpdateEnemies);
    lemma_message_name_round_trip(MessageKind::UpdatePlayers);
    lemma_message_name_round_trip(MessageKind::SpawnEnemy);
    lemma_message_name_round_trip(MessageKind::LeaveSuccess);
}

/// Reading back the name of a message gives the kind it was sent as: no two
/// kinds share a name.
pub proof fn lemma_message_name_round_trip(kind: MessageKind)
    ensures
        spec_message_kind(message_text(kind)) == Some(kind),
{
    reveal_strlit("new_player");
    reveal_strlit("joined_lobby");
    reveal_strlit("full_lobby");
    reveal_strlit("load_ocean");
    reveal_strlit("player_update");
    reveal_strlit("player_leave");
    reveal_strlit("got_here_late");
    reveal_strlit("update_enemies");
    reveal_strlit("update_players");
    reveal_strlit("spawn_enemy");
    reveal_strlit("leave_success");
    match kind {
        MessageKind::NewPlayer => {

        },
        MessageKind::JoinedLobby => {
            assert(message_text(MessageKind::JoinedLobby).len() != message_text(MessageKind::NewPlayer).len());
        },
        MessageKind::FullLobby => {
            assert(message_text(MessageKind::FullLobby)[0] != message_text(MessageKind::NewPlayer)[0]);
            assert(message_text(MessageKind::FullLobby).len() != message_text(MessageKind::JoinedLobby).len());
        },
        MessageKind::LoadOcean => {
            assert(message_text(MessageKind::LoadOcean)[0] != message_text(MessageKind::NewPlayer)[0]);
            assert(message_text(MessageKind::LoadOcean).len() != message_text(MessageKind::JoinedLobby).len());
            assert(message_text(MessageKind::LoadOcean)[0] != message_text(MessageKind::FullLobby)[0]);
        },
        MessageKind::PlayerUpdate => {
            assert(message_text(MessageKind::PlayerUpdate).len() != message_text(MessageKind::NewPlayer).len());
            assert(message_text(MessageKind::PlayerUpdate).len() != message_text(MessageKind::JoinedLobby).len());
            assert(message_text(MessageKind::PlayerUpdate).len() != message_text(MessageKind::FullLobby).len());
            assert(message_text(MessageKind::PlayerUpdate).len() != message_text(MessageKind::LoadOcean).len());
        },
        MessageKind::PlayerLeave => {
            assert(message_text(MessageKind::PlayerLeave).len() != message_text(MessageKind::NewPlayer).len());
            assert(message_text(MessageKind::PlayerLeave)[0] != message_text(MessageKind::JoinedLobby)[0]);
            assert(message_text(MessageKind::PlayerLeave).len() != message_text(MessageKind::FullLobby).len());
            assert(message_text(MessageKind::PlayerLeave).len() != message_text(MessageKind::LoadOcean).len());
            assert(message_text(MessageKind::PlayerLeave).len() != message_text(MessageKind::PlayerUpdate).len());
        },
        MessageKind::GotHereLate => {
            assert(message_text(MessageKind::GotHereLate).len() != message_text(MessageKind::NewPlayer).len());
            assert(message_text(MessageKind::GotHereLate).len() != message_text(MessageKind::JoinedLobby).len());
            assert(message_text(MessageKind::GotHereLate).len() != message_text(MessageKind::FullLobby).len());
            assert(message_text(MessageKind::GotHereLate).len() != message_text(MessageKind::LoadOcean).len());
            assert(message_text(MessageKind::GotHereLate)[0] != message_text(MessageKind::PlayerUpdate)[0]);
            assert(message_text(MessageKind::GotHereLate).len() != message_text(MessageKind::PlayerLeave).len());
        },
        MessageKind::UpdateEnemies => {
            assert(message_text(MessageKind::UpdateEnemies).len() != message_text(MessageKind::NewPlayer).len());
            assert(message_text(MessageKind::UpdateEnemies).len() != message_text(MessageKind::JoinedLobby).len());
            assert(message_text(MessageKind::UpdateEnemies).len() != message_text(MessageKind::FullLobby).len());
            assert(message_text(MessageKind::UpdateEnemies).len() != message_text(MessageKind::LoadOcean).len());
            assert(message_text(MessageKind::UpdateEnemies).len() != message_text(MessageKind::PlayerUpdate).len());
            assert(message_text(MessageKind::UpdateEnemies).len() != message_text(MessageKind::PlayerLeave).len());
            assert(message_text(MessageKind::UpdateEnemies).len() != message_text(MessageKind::GotHereLate).len());
        },
        MessageKind::UpdatePlayers => {
            assert(message_text(MessageKind::UpdatePlayers).len() != message_text(MessageKind::NewPlayer).len());
            assert(message_text(MessageKind::UpdatePlayers).len() != message_text(MessageKind::JoinedLobby).len());
            assert(message_text(MessageKind::UpdatePlayers).len() != message_text(MessageKind::FullLobby).len());
            assert(message_text(MessageKind::UpdatePlayers).len() != message_text(MessageKind::LoadOcean).len());
            assert(message_text(MessageKind::UpdatePlayers).len() != message_text(MessageKind::PlayerUpdate).len());
            assert(message_text(MessageKind::UpdatePlayers).len() != message_text(MessageKind::PlayerLeave).len());
            assert(message_text(MessageKind::UpdatePlayers).len() != message_text(MessageKind::GotHereLate).len());
            assert(message_text(MessageKind::UpdatePlayers)[7] != message_text(MessageKind::UpdateEnemies)[7]);
        },
        MessageKind::SpawnEnemy => {
            assert(message_text(MessageKind::SpawnEnemy).len() != message_text(MessageKind::NewPlayer).len());
            assert(message_text(MessageKind::SpawnEnemy).len() != message_text(MessageKind::JoinedLobby).len());
            assert(message_text(MessageKind::SpawnEnemy).len() != message_text(MessageKind::FullLobby).len());
            assert(message_text(MessageKind::SpawnEnemy).len() != message_text(MessageKind::LoadOcean).len());
            assert(message_text(MessageKind::SpawnEnemy).len() != message_text(MessageKind::PlayerUpdate).len());
            assert(message_text(MessageKind::SpawnEnemy).len() != message_text(MessageKind::PlayerLeave).len());
            assert(message_text(MessageKind::SpawnEnemy).len() != message_text(MessageKind::GotHereLate).len());
            assert(message_text(MessageKind::SpawnEnemy).len() != message_text(MessageKind::UpdateEnemies).len());
            assert(message_text(MessageKind::SpawnEnemy).len() != message_text(MessageKind::UpdatePlayers).len());
        },
        MessageKind::LeaveSuccess => {
            assert(message_text(MessageKind::LeaveSuccess).len() != message_text(MessageKind::NewPlayer).len());
            assert(message_text(MessageKind::LeaveSuccess).len() != message_text(MessageKind::JoinedLobby).len());
            assert(message_text(MessageKind::LeaveSuccess).len() != message_text(MessageKind::FullLobby).len());
            assert(message_text(MessageKind::LeaveSuccess).len() != message_text(MessageKind::LoadOcean).len());
            assert(message_text(MessageKind::LeaveSuccess)[0] != message_text(MessageKind::PlayerUpdate)[0]);
            assert(message_text(MessageKind::LeaveSuccess).len() != message_text(MessageKind::PlayerLeave).len());
            assert(message_text(MessageKind::LeaveSuccess)[0] != message_text(MessageKind::GotHereLate)[0]);
            assert(message_text(MessageKind::LeaveSuccess).len() != message_text(MessageKind::UpdateEnemies).len());
            assert(message_text(MessageKind::LeaveSuccess).len() != message_text(MessageKind::UpdatePlayers).len());
            assert(message_text(MessageKind::LeaveSuccess).len() != message_text(MessageKind::SpawnEnemy).len());
        },
    }
}

/// What the lobby told a joining client, once the envelope's payload is read.
#[derive(Clone, Copy, PartialEq, Eq, Structural, Debug)]
pub enum LobbyEvent {
    /// The client was admitted under this player number.
    JoinedLobby(i32),
    /// The lobby has no room left.
    FullLobby,
    /// One more tile of the ocean map arrived.
    LoadOcean,
    /// Anything else.
    Invalid,
}

/// What the client does with a lobby message.
#[derive(Clone, Copy, PartialEq, Eq, Structural, Debug)]
pub enum JoinAction {
    /// Remember the player number.
    Joined(i32),
    /// Keep the ocean tile that came with the message.
    StoreTile,
    /// Give up: the lobby is full.
    Abort,
    /// Report an invalid message and go on.
    Ignore,
}

/// Progress of a client joining the game: whether it was admitted, under
/// which number, and how many ocean tiles it has received.
#[derive(Clone, Copy, PartialEq, Eq, Structural, Debug)]
pub struct JoinState {
    pub joined: bool,
    pub player_id: i32,
    pub tiles: usize,
}

/// The state after a lobby message.
pub open spec fn join_step(s: JoinState, e: LobbyEvent) -> JoinState {
    match e {
        LobbyEvent::JoinedLobby(id) => JoinState { joined: true, player_id: id, tiles: s.tiles },
        LobbyEvent::LoadOcean => JoinState { tiles: (s.tiles + 1) as usize, ..s },
        _ => s,
    }
}

pub open spec fn join_action(e: LobbyEvent) -> JoinAction {
    match e {
        LobbyEvent::JoinedLobby(id) => JoinAction::Joined(id),
        LobbyEvent::FullLobby => JoinAction::Abort,
        LobbyEvent::LoadOcean => JoinAction::StoreTile,
        LobbyEvent::Invalid => JoinAction::Ignore,
    }
}

impl JoinState {
    /// A client that has not been admitted yet and has no number (-1) and
    /// no ocean.
    pub fn new() -> (s: JoinState)
        ensures
            s == (JoinState { joined: false, player_id: -1i32, tiles: 0 }),
    {
        JoinState { joined: false, player_id: -1, tiles: 0 }
    }

    /// Whether the client should (again) ask the server to let it join.
    pub fn wants_join_request(&self) -> (r: bool)
        ensures
            r == !self.joined,
    {
        !self.joined
    }

    /// Takes in a message from the lobby.
    pub fn receive(&mut self, event: LobbyEvent) -> (action: JoinAction)
        requires
            event == LobbyEvent::LoadOcean ==> old(self).tiles < usize::MAX,
        ensures
            *final(self) == join_step(*old(self), event),
            action == join_action(event),
    {
        match event {
            LobbyEvent::JoinedLobby(id) => {
                self.player_id = id;
                self.joined = true;
                JoinAction::Joined(id)
            },
            LobbyEvent::FullLobby => JoinAction::Abort,
            LobbyEvent::LoadOcean => {
                self.tiles = self.tiles + 1;
                JoinAction::StoreTile
            },
            LobbyEvent::Invalid => JoinAction::Ignore,
        }
    }

    /// Whether the whole ocean map has arrived, so that the game can start.
    pub fn finished(&self) -> (r: bool)
        ensures
            r == (self.tiles >= OCEAN_LENGTH),
    {
        self.tiles >= OCEAN_LENGTH
    }
}

/// Once admitted, a client stays admitted under its number until the lobby
/// admits it again, and the count of received tiles never goes down.
pub proof fn lemma_join_progress(s: JoinState, e: LobbyEvent)
    requires
        e == LobbyEvent::LoadOcean ==> s.tiles < usize::MAX,
    ensures
        s.joined ==> join_step(s, e).joined,
        !(e is JoinedLobby) ==> join_step(s, e).player_id == s.player_id,
        join_step(s, e).tiles >= s.tiles,
        e == LobbyEvent::LoadOcean ==> join_step(s, e).tiles == s.tiles + 1,
        e matches LobbyEvent::JoinedLobby(id) ==> join_step(s, e).joined && join_step(s, e).player_id == id
            && join_action(e) == JoinAction::Joined(id),
        e == LobbyEvent::FullLobby ==> join_action(e) == JoinAction::Abort && join_step(s, e) == s,
        e == LobbyEvent::Invalid ==> join_action(e) == JoinAction::Ignore && join_step(s, e) == s,
        e == LobbyEvent::LoadOcean ==> join_action(e) == JoinAction::StoreTile,
        e != LobbyEvent::LoadOcean ==> join_step(s, e).tiles == s.tiles,
{
}

/// Hands out numbers one after another.
pub struct Counter {
    pub count: i32,
}

impl Counter {
    /// A counter that has handed out nothing.
    pub fn init() -> (c: Counter)
        ensures
            c.count == 0,
    {
        Counter { count: 0 }
    }

    /// The next number: one more than the last one handed out, starting at one.
    pub fn next(&mut self) -> (n: i32)
        requires
            old(self).count < i32::MAX,
        ensures
            n == old(self).count + 1,
            final(self).count == n,
    {
        self.count = self.count + 1;
        self.count
    }
}

} // verus!
