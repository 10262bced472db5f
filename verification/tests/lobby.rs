use game_server::connection::{ReadError, WriteError};
use game_server::game::Game;
use game_server::lobby::{connect_to_game, Admission, ConnectError, ConnectionRequest, Lobby, GAME_ID};
use game_server::server::State;

fn request(game_id: u16) -> Result<ConnectionRequest, ReadError> {
    Ok(ConnectionRequest { game_id })
}

fn is_rejected(admission: Admission<String>, expected: &str) -> bool {
    match admission {
        Admission::Rejected { connection } => connection == expected,
        _ => false,
    }
}

#[test]
fn game_id_is_12345() {
    assert_eq!(GAME_ID, 12345);
    assert_eq!(connect_to_game(), ConnectionRequest { game_id: 12345 });
}

#[test]
fn test_get_connection_returns_connection_that_sends_correct_request() {
    let mut lobby = Lobby::new();

    let rejected = lobby.get_connection(
        String::from("Content from incorrect client"),
        request(999),
    );
    assert!(is_rejected(rejected, "Content from incorrect client"));

    let admitted = lobby.get_connection(
        String::from("Content from correct client"),
        request(12345),
    );
    assert!(matches!(admitted, Admission::Waiting));
}

#[test]
fn test_set_up_online_server_returns_server_with_expected_player_connections() {
    let mut lobby = Lobby::new();

    let first = lobby.get_connection(String::from("player one"), request(12345));
    assert!(matches!(first, Admission::Waiting));

    let bogus = lobby.get_connection(String::from("bogus"), request(999));
    assert!(is_rejected(bogus, "bogus"));

    let second = lobby.get_connection(String::from("player two"), request(12345));
    match second {
        Admission::Ready { mut server } => {
            assert_eq!(server.state(), State::PreInitialise);
            assert_eq!(server.game(), Game::TicTacToe);
            assert_eq!(server.connection_mut(1).as_str(), "player one");
            assert_eq!(server.connection_mut(2).as_str(), "player two");
        }
        other => panic!("expected a session, got {:?}", other),
    }
}

#[test]
fn set_up_online_server_seats_the_connections_in_order() {
    let mut server = Lobby::set_up_online_server(10u8, 20u8);
    assert_eq!(*server.connection_mut(1), 10);
    assert_eq!(*server.connection_mut(2), 20);
    assert_eq!(server.state(), State::PreInitialise);
}

#[test]
fn connection_whose_handshake_cannot_be_read_is_rejected() {
    let mut lobby = Lobby::new();
    for failure in [
        ReadError::InvalidMessageLength,
        ReadError::Read(std::io::Error::from(std::io::ErrorKind::UnexpectedEof)),
        ReadError::Deserialise(serde_json::from_slice::<u8>(b"x").unwrap_err()),
    ] {
        let admission = lobby.get_connection(String::from("silent"), Err(failure));
        assert!(is_rejected(admission, "silent"));
    }
    assert!(matches!(
        lobby.get_connection(String::from("one"), request(GAME_ID)),
        Admission::Waiting
    ));
}

#[test]
fn rejected_connections_never_take_a_seat() {
    let mut lobby = Lobby::new();
    for game_id in [0u16, 1, 999, 12344, 12346, u16::MAX] {
        let admission = lobby.get_connection(format!("stranger {}", game_id), request(game_id));
        assert!(is_rejected(admission, &format!("stranger {}", game_id)));
    }
    lobby.get_connection(String::from("one"), request(GAME_ID));
    assert!(is_rejected(
        lobby.get_connection(String::from("late stranger"), request(1)),
        "late stranger"
    ));
    match lobby.get_connection(String::from("two"), request(GAME_ID)) {
        Admission::Ready { mut server } => {
            assert_eq!(server.connection_mut(1).as_str(), "one");
            assert_eq!(server.connection_mut(2).as_str(), "two");
        }
        other => panic!("expected a session, got {:?}", other),
    }
}

#[test]
fn lobby_pairs_again_after_a_session_is_ready() {
    let mut lobby = Lobby::new();
    lobby.get_connection(1u8, request(GAME_ID));
    assert!(matches!(
        lobby.get_connection(2u8, request(GAME_ID)),
        Admission::Ready { .. }
    ));
    assert!(matches!(
        lobby.get_connection(3u8, request(GAME_ID)),
        Admission::Waiting
    ));
    match lobby.get_connection(4u8, request(GAME_ID)) {
        Admission::Ready { mut server } => {
            assert_eq!(*server.connection_mut(1), 3);
            assert_eq!(*server.connection_mut(2), 4);
        }
        other => panic!("expected a session, got {:?}", other),
    }
}

#[test]
fn connect_errors_convert_from_their_sources() {
    assert!(matches!(
        ConnectError::from(std::io::Error::from(std::io::ErrorKind::ConnectionRefused)),
        ConnectError::StreamError(_)
    ));
    assert!(matches!(
        ConnectError::from(WriteError::Write(std::io::Error::from(
            std::io::ErrorKind::BrokenPipe
        ))),
        ConnectError::WriteError(WriteError::Write(_))
    ));
}
