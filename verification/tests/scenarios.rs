use std::collections::VecDeque;

use game_server::client::{Action, Client, IncomingEvent as ClientIncoming, OnlineClient, LocalClient};
use game_server::connection::{
    frame_payload, read_event, ErrorCategory, ReadError, WriteError,
};
use game_server::game::{Game, GameClient, GameClientEvent, GameServer, GameServerEvent};
use game_server::lobby::{connect_to_game, Admission, Lobby};
use game_server::server::{
    Arrival, Dispatch, IncomingEvent, LocalConnection, OnlineConnection,
    OutgoingEvent, Reaction, Server, ServerGameMode, SessionError, State, Step,
};
use game_server::tic_tac_toe::client::FollowUp;
use game_server::tic_tac_toe::{
    ClientEvent, Outcome, ServerEvent, TicTacToeClient, TicTacToeServer,
};

/// One end of a connection as the session sees it: what was written to it,
/// whether writes to it fail, and whether it was shut down.
#[derive(Debug, Default)]
struct Wire {
    written: Vec<OutgoingEvent>,
    bytes: Vec<u8>,
    broken: bool,
    closed: bool,
}

fn copy_of(event: &OutgoingEvent) -> OutgoingEvent {
    match event {
        OutgoingEvent::ErrorOccurred(error) => OutgoingEvent::ErrorOccurred(*error),
        OutgoingEvent::GameStarted => OutgoingEvent::GameStarted,
        OutgoingEvent::Shutdown => OutgoingEvent::Shutdown,
        OutgoingEvent::Game { event } => OutgoingEvent::Game {
            event: event.clone(),
        },
    }
}

fn envelope(event: &OutgoingEvent) -> Vec<u8> {
    let value = match event {
        OutgoingEvent::GameStarted => serde_json::Value::from("GameStarted"),
        OutgoingEvent::Shutdown => serde_json::Value::from("Shutdown"),
        OutgoingEvent::ErrorOccurred(SessionError::InvalidMessage) => {
            let mut map = serde_json::Map::new();
            map.insert(
                String::from("ErrorOccurred"),
                serde_json::Value::from("InvalidMessage"),
            );
            serde_json::Value::Object(map)
        }
        OutgoingEvent::Game { event } => {
            let mut inner = serde_json::Map::new();
            inner.insert(String::from("event"), serde_json::Value::from(event.clone()));
            let mut map = serde_json::Map::new();
            map.insert(String::from("Game"), serde_json::Value::Object(inner));
            serde_json::Value::Object(map)
        }
    };
    serde_json::to_vec(&value).unwrap()
}

fn engine_payload(event: &ServerEvent) -> Vec<u8> {
    format!("{:?}", event).into_bytes()
}

fn move_payload(player_id: u8, move_index: usize) -> Vec<u8> {
    format!("{} {}", player_id, move_index).into_bytes()
}

fn move_of(payload: &[u8]) -> ClientEvent {
    let text = String::from_utf8(payload.to_vec()).unwrap();
    let (player_id, move_index) = text.split_once(' ').unwrap();
    ClientEvent::MoveMade {
        player_id: player_id.parse().unwrap(),
        move_index: move_index.parse().unwrap(),
    }
}

fn write(wire: &mut Wire, event: &OutgoingEvent) -> Result<(), WriteError> {
    if wire.broken || wire.closed {
        return Err(WriteError::Write(std::io::Error::from(
            std::io::ErrorKind::BrokenPipe,
        )));
    }
    wire.bytes
        .extend_from_slice(&frame_payload(&envelope(event)).unwrap());
    wire.written.push(copy_of(event));
    Ok(())
}

/// A session with its engine and the queue between them, driven as the
/// program drives it.
struct Table {
    server: Server<OnlineConnection<Wire>>,
    engine: TicTacToeServer,
    queue: VecDeque<GameServerEvent<Vec<u8>>>,
    sent: Vec<(Vec<u8>, ServerEvent)>,
    recovered: bool,
}

impl Table {
    fn new() -> Table {
        let mut lobby = Lobby::new();
        assert!(matches!(
            lobby.get_connection(Wire::default(), Ok(connect_to_game())),
            Admission::Waiting
        ));
        let server = match lobby.get_connection(Wire::default(), Ok(connect_to_game())) {
            Admission::Ready { server } => server,
            other => panic!("expected a session, got {:?}", other),
        };
        Table {
            server,
            engine: TicTacToeServer::new(),
            queue: VecDeque::new(),
            sent: Vec::new(),
            recovered: false,
        }
    }

    fn wire(&mut self, player_id: u8) -> &mut Wire {
        self.server.connection_mut(player_id)
    }

    fn carry_out(&mut self, dispatch: &Dispatch) -> Result<(), (WriteError, u8)> {
        let mut written = 0;
        while let Some(recipient) = dispatch.next_recipient(written) {
            if let Err(error) = write(self.wire(recipient), &dispatch.event) {
                return Err(dispatch.failure(written, error));
            }
            written += 1;
        }
        Ok(())
    }

    fn enqueue(&mut self, events: Vec<GameServerEvent<ServerEvent>>) {
        for event in events {
            self.queue.push_back(match event {
                GameServerEvent::DispatchToClient {
                    dispatch_mode,
                    event,
                } => {
                    let payload = engine_payload(&event);
                    self.sent.push((payload.clone(), event));
                    GameServerEvent::DispatchToClient {
                        dispatch_mode,
                        event: payload,
                    }
                }
                GameServerEvent::GameOver => GameServerEvent::GameOver,
            });
        }
    }

    fn arrive(&mut self, arrival: Arrival) {
        assert_eq!(self.server.next_step(), Step::Continue);
        if let Arrival::Client { .. } = arrival {
            assert!(self.server.awaits_participants());
        }
        match self.server.get_next_incoming_event(arrival) {
            Ok(event) => {
                assert!(self.server.accepts(&event), "Invalid state for event");
                if let Err((error, id)) = self.react(event) {
                    self.server.handle_failure(&error, id)
                }
            }
            Err((error, id)) => self.server.handle_failure(&error, id),
        }
        self.settle();
    }

    fn react(&mut self, event: IncomingEvent) -> Result<(), (WriteError, u8)> {
        match self.server.handle_incoming_event(event) {
            Reaction::StartGame { announcement } => {
                self.carry_out(&announcement)?;
                let events = self.engine.begin();
                self.enqueue(events);
            }
            Reaction::ForwardToGame { event } => {
                let events = self.engine.handle_event(move_of(&event));
                self.enqueue(events);
            }
            Reaction::Relay { dispatch } => self.carry_out(&dispatch)?,
            Reaction::Finish => {}
        }
        Ok(())
    }

    fn settle(&mut self) {
        loop {
            match self.server.next_step() {
                Step::Stop => break,
                Step::Recover {
                    category,
                    player_id,
                } => {
                    if !self.recovered {
                        assert!(self.server.recoverable(category, player_id));
                        let recovery = self.server.handle_error(category, player_id);
                        for notice in &recovery.notices {
                            let _ = self.carry_out(notice);
                        }
                        for transport in &recovery.shutdown {
                            self.wire(*transport).closed = true;
                        }
                        self.recovered = true;
                    }
                    break;
                }
                Step::Continue => match self.queue.pop_front() {
                    Some(event) => {
                        let event = IncomingEvent::Game(event);
                        assert!(self.server.accepts(&event), "Invalid state for event");
                        if let Err((error, id)) = self.react(event) {
                            self.server.handle_failure(&error, id)
                        }
                    }
                    None => break,
                },
            }
        }
    }

    fn begin(&mut self) {
        let signal = match self.server.init() {
            IncomingEvent::Server(signal) => signal,
            other => panic!("expected a signal, got {:?}", other),
        };
        self.arrive(Arrival::Server(signal));
    }

    fn receive(&mut self, player_id: u8, stream: &[u8]) {
        self.arrive(Arrival::Client {
            player_id,
            result: read_event(stream),
        });
    }

    fn play(&mut self, player_id: u8, move_index: usize) {
        let frame =
            game_server::connection::write_event(&move_payload(player_id, move_index)).unwrap();
        self.receive(player_id, &frame);
    }

    fn game_events(&mut self, player_id: u8) -> Vec<ServerEvent> {
        let sent = self.sent.clone();
        self.wire(player_id)
            .written
            .iter()
            .filter_map(|event| match event {
                OutgoingEvent::Game { event } => Some(
                    sent.iter()
                        .find(|(payload, _)| payload == event)
                        .map(|(_, event)| *event)
                        .unwrap(),
                ),
                _ => None,
            })
            .collect()
    }
}

fn frames(mut stream: &[u8]) -> Vec<Vec<u8>> {
    let mut payloads = Vec::new();
    while !stream.is_empty() {
        let len = stream[0] as usize * 256 + stream[1] as usize;
        payloads.push(stream[2..2 + len].to_vec());
        stream = &stream[2 + len..];
    }
    payloads
}

fn board(marks: &[(usize, u8)]) -> [Option<u8>; 9] {
    let mut cells = [None; 9];
    for (index, player_id) in marks {
        cells[*index] = Some(*player_id);
    }
    cells
}

#[test]
fn online_game_runs_until_win() {
    let mut table = Table::new();
    table.begin();
    assert_eq!(table.server.state(), State::InProgress);
    for player_id in [1, 2] {
        assert_eq!(table.wire(player_id).written[0], OutgoingEvent::GameStarted);
        assert_eq!(
            table.game_events(player_id),
            vec![
                ServerEvent::BoardUpdated {
                    board_cells: [None; 9]
                },
                ServerEvent::PlayerTurn { player_id: 1 },
            ]
        );
    }

    table.play(1, 1);
    table.play(2, 4);
    table.play(1, 10);
    table.play(1, 0);
    table.play(2, 6);
    assert_eq!(table.server.state(), State::InProgress);
    table.play(1, 2);

    assert_eq!(table.server.state(), State::GameOver);
    assert_eq!(table.server.next_step(), Step::Stop);
    let final_board = board(&[(1, 1), (4, 2), (0, 1), (6, 2), (2, 1)]);
    let won = ServerEvent::GameOver {
        outcome: Outcome::WinnerFound { player_id: 1 },
    };
    for player_id in [1, 2] {
        let events = table.game_events(player_id);
        assert_eq!(
            events[events.len() - 2..],
            [
                ServerEvent::BoardUpdated {
                    board_cells: final_board
                },
                won
            ]
        );
        assert_eq!(
            table.wire(player_id).written.last(),
            Some(&OutgoingEvent::Game {
                event: engine_payload(&won)
            })
        );
        assert!(!table.wire(player_id).closed);
    }
    let errors_of_one = table
        .game_events(1)
        .iter()
        .filter(|event| matches!(event, ServerEvent::ErrorOccurred { .. }))
        .count();
    let errors_of_two = table
        .game_events(2)
        .iter()
        .filter(|event| matches!(event, ServerEvent::ErrorOccurred { .. }))
        .count();
    assert_eq!((errors_of_one, errors_of_two), (1, 0));
}

#[test]
fn both_participants_receive_the_same_bytes_for_a_broadcast() {
    let mut table = Table::new();
    table.begin();
    table.play(1, 4);
    table.play(2, 0);
    let one = frames(&table.wire(1).bytes.clone());
    let two = frames(&table.wire(2).bytes.clone());
    assert_eq!(one, two);
    assert_eq!(one[0], b"\"GameStarted\"");
    assert_eq!(one.len(), 1 + 2 + 2 + 2);

    table.play(2, 8);
    let one = frames(&table.wire(1).bytes.clone());
    let two = frames(&table.wire(2).bytes.clone());
    assert_eq!(one.len(), 7 + 2);
    assert_eq!(two.len(), 7);
}

#[test]
fn online_game_handles_client_disconnection() {
    let mut table = Table::new();
    table.begin();
    assert_eq!(table.server.state(), State::InProgress);

    table.wire(2).broken = true;
    table.arrive(Arrival::Client {
        player_id: 2,
        result: Err(ReadError::Read(std::io::Error::from(
            std::io::ErrorKind::UnexpectedEof,
        ))),
    });

    assert_eq!(
        table.server.state(),
        State::Error {
            category: ErrorCategory::ReadWrite,
            player_id: 2
        }
    );
    assert_eq!(
        table.wire(1).written.last(),
        Some(&OutgoingEvent::Shutdown)
    );
    assert!(!table.wire(2).written.contains(&OutgoingEvent::Shutdown));
    assert!(table.wire(1).closed);
    assert!(table.wire(2).closed);
    assert_eq!(
        frames(&table.wire(1).bytes.clone()).last().unwrap(),
        b"\"Shutdown\""
    );
}

#[test]
fn disconnection_noticed_on_a_write_ends_the_session_too() {
    let mut table = Table::new();
    table.begin();
    table.wire(2).broken = true;
    table.play(1, 1);

    assert_eq!(
        table.server.state(),
        State::Error {
            category: ErrorCategory::ReadWrite,
            player_id: 2
        }
    );
    assert_eq!(
        table.wire(1).written.last(),
        Some(&OutgoingEvent::Shutdown)
    );
    assert!(table.wire(1).closed && table.wire(2).closed);
}

#[test]
fn failed_announcement_keeps_the_game_from_beginning() {
    let mut table = Table::new();
    table.wire(1).broken = true;
    table.begin();

    assert_eq!(
        table.server.state(),
        State::Error {
            category: ErrorCategory::ReadWrite,
            player_id: 1
        }
    );
    assert!(table.queue.is_empty());
    assert!(table.sent.is_empty());
    assert_eq!(table.wire(2).written, vec![OutgoingEvent::Shutdown]);
    assert!(table.wire(1).written.is_empty());
}

#[test]
fn online_game_handles_client_sending_malicious_message() {
    let mut table = Table::new();
    table.begin();
    let before_one = table.wire(1).written.len();
    let before_two = table.wire(2).written.len();

    table.receive(2, b"insert malicious message here");

    assert_eq!(
        table.server.state(),
        State::Error {
            category: ErrorCategory::InvalidParameters,
            player_id: 2
        }
    );
    assert_eq!(
        table.wire(2).written[before_two..],
        [
            OutgoingEvent::ErrorOccurred(SessionError::InvalidMessage),
            OutgoingEvent::Shutdown
        ]
    );
    assert_eq!(
        table.wire(1).written[before_one..],
        [OutgoingEvent::Shutdown]
    );
    assert!(table.wire(1).closed && table.wire(2).closed);

    let bytes = table.wire(2).bytes.clone();
    let text = String::from_utf8_lossy(&bytes);
    assert!(text.contains("InvalidMessage"));
    assert!(text.contains("Shutdown"));
}

#[test]
fn message_that_is_no_list_of_bytes_is_a_deserialisation_fault() {
    let mut table = Table::new();
    table.begin();
    table.receive(1, &frame_payload(b"{\"game_id\":12345}").unwrap());

    assert_eq!(
        table.server.state(),
        State::Error {
            category: ErrorCategory::Deserialisation,
            player_id: 1
        }
    );
    let written = &table.wire(1).written;
    assert_eq!(
        written[written.len() - 2..],
        [
            OutgoingEvent::ErrorOccurred(SessionError::InvalidMessage),
            OutgoingEvent::Shutdown
        ]
    );
    assert_eq!(
        table.wire(2).written.last(),
        Some(&OutgoingEvent::Shutdown)
    );
    assert!(!table
        .wire(2)
        .written
        .contains(&OutgoingEvent::ErrorOccurred(SessionError::InvalidMessage)));
}

#[test]
fn nothing_is_read_from_a_participant_before_the_game_begins() {
    let mut table = Table::new();
    assert_eq!(table.server.state(), State::PreInitialise);
    assert!(!table.server.awaits_participants());
    assert!(!table
        .server
        .accepts(&IncomingEvent::Client(move_payload(1, 4))));

    table.begin();
    assert!(table.server.awaits_participants());
    table.play(1, 4);
    assert_eq!(table.server.state(), State::InProgress);
    assert!(table.server.awaits_participants());
}

#[test]
fn nothing_is_read_from_a_participant_after_the_session_has_ended() {
    let mut table = Table::new();
    table.begin();
    for (player_id, move_index) in [(1, 1), (2, 4), (1, 0), (2, 6), (1, 2)] {
        table.play(player_id, move_index);
    }
    assert_eq!(table.server.state(), State::GameOver);
    assert!(!table.server.awaits_participants());

    let mut table = Table::new();
    table.begin();
    table.receive(1, &[1, 0]);
    assert!(!table.server.awaits_participants());
}

#[test]
fn nothing_is_handled_after_the_session_has_ended() {
    let mut table = Table::new();
    table.begin();
    table.receive(2, &[1, 0]);
    let written = table.wire(1).written.len();
    assert!(matches!(table.server.next_step(), Step::Recover { .. }));
    assert!(!table.server.accepts(&IncomingEvent::Client(vec![1])));
    table.settle();
    assert_eq!(table.wire(1).written.len(), written);
}

/// The local program in one piece: a session with one connection, its
/// engine, and the client at which both players sit.
fn play_locally(lines: &[&str]) -> String {
    let mut server = Server::<LocalConnection<Vec<OutgoingEvent>>>::new(Vec::new(), Game::TicTacToe);
    let mut engine = TicTacToeServer::new();
    let mut client = Client::new_local(Game::TicTacToe);
    let mut lines = lines.iter();
    let mut output = String::new();
    let mut to_server: VecDeque<IncomingEvent> = VecDeque::new();
    let mut sent: Vec<(Vec<u8>, ServerEvent)> = Vec::new();
    to_server.push_back(server.init());

    while let Some(event) = to_server.pop_front() {
        if server.next_step() != Step::Continue {
            break;
        }
        assert!(server.accepts(&event), "Invalid state for event");
        let dispatch = match server.handle_incoming_event(event) {
            Reaction::StartGame { announcement } => {
                for event in engine.begin() {
                    to_server.push_back(queued(event, &mut sent));
                }
                Some(announcement)
            }
            Reaction::ForwardToGame { event } => {
                for event in engine.handle_event(move_of(&event)) {
                    to_server.push_back(queued(event, &mut sent));
                }
                None
            }
            Reaction::Relay { dispatch } => Some(dispatch),
            Reaction::Finish => None,
        };
        let Some(dispatch) = dispatch else { continue };
        assert_eq!(dispatch.recipients, vec![1]);
        server.connection_mut().push(copy_of(&dispatch.event));

        let mut to_client = VecDeque::from([ClientIncoming::Server(dispatch.event)]);
        while let Some(event) = to_client.pop_front() {
            if !client.is_running() {
                break;
            }
            match client.handle_event(event).unwrap() {
                Action::Show { text } | Action::Terminate { text } => {
                    output.push_str(&text);
                    output.push('\n');
                }
                Action::ForwardToGame { event } => {
                    let event = sent.iter().find(|(payload, _)| *payload == event).unwrap().1;
                    assert!(client.game().can_show(&event));
                    let reply = client.game_mut().handle_event(event);
                    output.push_str(&reply.text);
                    output.push('\n');
                    match reply.follow_up {
                        FollowUp::Nothing => {}
                        FollowUp::GameOver => to_client.push_back(ClientIncoming::Game(GameClientEvent::GameOver)),
                        FollowUp::MakeMove { player_id } => {
                            let move_index = loop {
                                output.push_str(&client.game().move_prompt());
                                output.push('\n');
                                match client.game().get_move(lines.next().unwrap()) {
                                    Ok(index) => break index,
                                    Err(text) => {
                                        output.push_str(&text);
                                        output.push('\n');
                                    }
                                }
                            };
                            match client.game().make_player_move(player_id, move_index) {
                                GameClientEvent::DispatchToServer {
                                    event: ClientEvent::MoveMade { player_id, move_index },
                                } => to_client.push_back(ClientIncoming::Game(
                                    GameClientEvent::DispatchToServer {
                                        event: move_payload(player_id, move_index),
                                    },
                                )),
                                GameClientEvent::GameOver => unreachable!(),
                            }
                        }
                    }
                }
                Action::Send { frame } => match server.get_next_incoming_event(Arrival::Client {
                    player_id: 1,
                    result: read_event(&frame),
                }) {
                    Ok(event) => to_server.push_back(event),
                    Err((error, _)) => panic!("unexpected failure {:?}", error),
                },
                Action::Close => {}
            }
        }
    }
    assert_eq!(server.state(), State::GameOver);
    assert!(!client.is_running());
    output
}

fn queued(
    event: GameServerEvent<ServerEvent>,
    sent: &mut Vec<(Vec<u8>, ServerEvent)>,
) -> IncomingEvent {
    IncomingEvent::Game(match event {
        GameServerEvent::DispatchToClient {
            dispatch_mode,
            event,
        } => {
            let payload = engine_payload(&event);
            sent.push((payload.clone(), event));
            GameServerEvent::DispatchToClient {
                dispatch_mode,
                event: payload,
            }
        }
        GameServerEvent::GameOver => GameServerEvent::GameOver,
    })
}

fn board_text(cells: [&str; 9]) -> String {
    format!(
        "_________\n{} | {} | {}\n{} | {} | {}\n{} | {} | {}\n_________\n",
        cells[0], cells[1], cells[2], cells[3], cells[4], cells[5], cells[6], cells[7], cells[8]
    )
}

#[test]
fn local_game_runs_until_win() {
    let output = play_locally(&["1\n", "4\n", "0\n", "6\n", "2\n"]);

    let mut rest = output.as_str();
    let mut expect = |text: &str| match rest.find(text) {
        Some(at) => rest = &rest[at + text.len()..],
        None => panic!("missing {:?} in {:?}", text, rest),
    };
    expect("Lets begin.");
    expect(&board_text([" "; 9]));
    let turns = [
        ("Player X's turn", [" ", "X", " ", " ", " ", " ", " ", " ", " "]),
        ("Player O's turn", [" ", "X", " ", " ", "O", " ", " ", " ", " "]),
        ("Player X's turn", ["X", "X", " ", " ", "O", " ", " ", " ", " "]),
        ("Player O's turn", ["X", "X", " ", " ", "O", " ", "O", " ", " "]),
        ("Player X's turn", ["X", "X", "X", " ", "O", " ", "O", " ", " "]),
    ];
    for (prompt, cells) in turns {
        expect(prompt);
        expect("Input a number between 1 and 9 to make your move:");
        expect(&board_text(cells));
    }
    expect("Game over! Player X won!");
}

#[test]
fn local_game_asks_again_after_a_move_that_is_turned_down() {
    let output = play_locally(&["x\n", "10\n", "4\n", "4\n", "0\n", "3\n", "1\n", "5\n"]);
    assert!(output.contains("That is not a number, please try again."));
    assert!(output.contains("Error: The input should be a number between 1 and 9."));
    assert!(output.contains("Error: This cell is already occupied."));
    assert!(output.ends_with("Game over! Player X won!\n"));
}

#[test]
fn online_clients_take_turns_at_the_prompt() {
    let one = TicTacToeClient::new(OnlineClient { id: 1 });
    let two = TicTacToeClient::new(OnlineClient { id: 2 });
    let local = TicTacToeClient::new(LocalClient {});
    let mut table = Table::new();
    table.begin();
    let mut turn = 1;
    for move_index in [1usize, 4, 0, 6, 2] {
        let event = *table.game_events(1).last().unwrap();
        assert_eq!(event, ServerEvent::PlayerTurn { player_id: turn });
        let mut own = one.client_type;
        own.id = turn;
        let mut mover = TicTacToeClient::new(own);
        let mut waiter = if turn == 1 { two.client_type } else { one.client_type };
        waiter.id = 3 - turn;
        let mut waiter = TicTacToeClient::new(waiter);
        assert_eq!(
            mover.handle_event(event).follow_up,
            FollowUp::MakeMove { player_id: turn }
        );
        assert_eq!(waiter.handle_event(event).follow_up, FollowUp::Nothing);
        assert!(local.can_show(&event));
        table.play(turn, move_index);
        turn = 3 - turn;
    }
    assert_eq!(table.server.state(), State::GameOver);
}
