use ascension::client::{
    App, AppMsg, ClientGameContext, ClientNextContextData, ClientStartGameData, Game, GameMsg,
    Home, Intro, IntroMsg, Msg, SelectRole, SelectRoleMsg,
};
use ascension::game::{Role, Suit};
use ascension::protocol::{
    DataForNextContext, GameContextKind, GamePhaseKind, MessageDecoder, NextContextError,
    RoleStatus, TransitionError, TurnStatus, Username, UsernameError,
};
use ascension::server::LoginStatus;

fn default_intro() -> ClientGameContext {
    ClientGameContext::Intro(Intro {
        status: Some(LoginStatus::Logged),
        chat_log: Some(Vec::new()),
    })
}

fn start_game_data() -> ClientStartGameData {
    ClientStartGameData {
        abilities: [None, None, None],
        monsters: [None, None],
        role: Suit::Clubs,
    }
}

#[test]
fn shoul_start_from_intro() {
    let ctx = ClientGameContext::new();
    assert!(matches!(ctx, ClientGameContext::Intro(_)));
    let id = ctx.kind();
    assert_eq!(id, GameContextKind::Intro);
}

#[test]
fn client_shoul_correct_next_context_from_next_context_data() {
    let mut ctx = default_intro();
    ctx = ctx.to_next(ClientNextContextData::Intro).unwrap();
    assert!(matches!(ctx, ClientGameContext::Intro(_)));
    ctx = ctx.to_next(ClientNextContextData::Home).unwrap();
    assert!(matches!(ctx, ClientGameContext::Home(_)));
    ctx = ctx.to_next(ClientNextContextData::SelectRole(None)).unwrap();
    assert!(matches!(ctx, ClientGameContext::SelectRole(_)));
    ctx = ctx.to_next(ClientNextContextData::Game(start_game_data())).unwrap();
    assert!(matches!(ctx, ClientGameContext::Game(_)));
}

#[test]
fn next_context_from_intro_without_login_is_refused() {
    let ctx = ClientGameContext::Intro(Intro {
        status: None,
        chat_log: Some(Vec::new()),
    });
    let (back, err) = ctx.to_next(ClientNextContextData::Home).unwrap_err();
    assert_eq!(err, TransitionError::NotLogged);
    assert!(matches!(back, ClientGameContext::Intro(_)));
}

#[test]
fn next_context_from_intro_without_chat_log_is_refused() {
    let ctx = ClientGameContext::Intro(Intro {
        status: Some(LoginStatus::Logged),
        chat_log: None,
    });
    let (back, err) = ctx.to_next(ClientNextContextData::Home).unwrap_err();
    assert_eq!(err, TransitionError::MissingChatLog);
    assert!(matches!(back, ClientGameContext::Intro(_)));
}

#[test]
fn client_intro_to_select_role_should_not_panic() {
    let ctx = default_intro();
    ctx.to_next(ClientNextContextData::SelectRole(None)).unwrap();
}

#[test]
fn client_intro_to_game_restores_play_state() {
    // a reconnecting client lands straight in the Game phase
    let ctx = default_intro();
    let ctx = ctx.to_next(ClientNextContextData::Game(start_game_data())).unwrap();
    match ctx {
        ClientGameContext::Game(g) => {
            assert_eq!(g.role, Suit::Clubs);
            assert_eq!(g.abilities, [None, None, None]);
            assert_eq!(g.monsters, [None, None]);
        }
        _ => panic!("expected the Game context"),
    }
}

#[test]
fn client_home_to_game_is_refused() {
    let ctx = ClientGameContext::Home(Home { app: App { chat: Vec::new() } });
    let (back, err) = ctx.to_next(ClientNextContextData::Game(start_game_data())).unwrap_err();
    match err {
        TransitionError::Unexpected(u) => {
            assert_eq!(u.expected, GameContextKind::Home);
            assert_eq!(u.found, GameContextKind::Game);
        }
        _ => panic!("expected an unexpected-context refusal"),
    }
    assert!(matches!(back, ClientGameContext::Home(_)));
}

#[test]
fn game_context_id_from_client_game_context() {
    let intro = ClientGameContext::Intro(Intro { status: None, chat_log: None });
    let home = ClientGameContext::Home(Home { app: App { chat: Vec::new() } });
    let select_role = ClientGameContext::SelectRole(SelectRole {
        app: App { chat: Vec::new() },
        selected: None,
        roles: Vec::new(),
    });
    let game = ClientGameContext::Game(Game {
        app: App { chat: Vec::new() },
        abilities: [None, None, None],
        monsters: [None, None],
        role: Suit::Clubs,
    });
    assert_eq!(intro.kind(), GameContextKind::Intro);
    assert_eq!(home.kind(), GameContextKind::Home);
    assert_eq!(select_role.kind(), GameContextKind::Roles);
    assert_eq!(game.kind(), GameContextKind::Game);
}

#[test]
fn game_context_id_from_client_msg() {
    let intro = Msg::Intro(IntroMsg::GetChatLog);
    let home = Msg::Home(ascension::client::HomeMsg::StartGame);
    let select_role = Msg::SelectRole(SelectRoleMsg::Select(Role::Mage));
    let game = Msg::Game(GameMsg::Chat("".into()));
    assert_eq!(intro.kind(), Some(GameContextKind::Intro));
    assert_eq!(home.kind(), Some(GameContextKind::Home));
    assert_eq!(select_role.kind(), Some(GameContextKind::Roles));
    assert_eq!(game.kind(), Some(GameContextKind::Game));
    assert_eq!(Msg::App(AppMsg::Ping).kind(), None);
}

#[test]
fn game_context_id_from_client_data_for_next_context() {
    let intro: ClientNextContextData = DataForNextContext::Intro;
    let home: ClientNextContextData = DataForNextContext::Home;
    let select_role: ClientNextContextData = DataForNextContext::SelectRole(None);
    let game: ClientNextContextData = DataForNextContext::Game(start_game_data());
    assert_eq!(intro.kind(), GameContextKind::Intro);
    assert_eq!(home.kind(), GameContextKind::Home);
    assert_eq!(select_role.kind(), GameContextKind::Roles);
    assert_eq!(game.kind(), GameContextKind::Game);
}

#[test]
fn context_chain_moves_forward() {
    assert_eq!(GameContextKind::Intro.try_next_context(), Ok(GameContextKind::Home));
    assert_eq!(GameContextKind::Home.try_next_context(), Ok(GameContextKind::Roles));
    assert_eq!(GameContextKind::Roles.try_next_context(), Ok(GameContextKind::Game));
    assert_eq!(
        GameContextKind::Game.try_next_context(),
        Err(NextContextError::NoNextContext)
    );
}

#[test]
fn username_length_is_checked() {
    assert!(Username::new("ab".to_string()).is_ok());
    assert_eq!(
        Username::new("a".to_string()).unwrap_err(),
        UsernameError(1)
    );
    assert_eq!(
        Username::new("".to_string()).unwrap_err(),
        UsernameError(0)
    );
    assert_eq!(
        Username::new("abcdefghijklmnopqrstu".to_string()).unwrap_err(),
        UsernameError(21)
    );
    let twenty = "abcdefghijklmnopqrst".to_string();
    assert_eq!(Username::new(twenty.clone()).unwrap().as_str(), twenty);
}

#[test]
fn username_equality_and_clone() {
    let a = Username::new("carol".to_string()).unwrap();
    let b = Username::new("carol".to_string()).unwrap();
    let c = Username::new("dave".to_string()).unwrap();
    assert!(a == b);
    assert!(!(a == c));
    let d = a.clone();
    assert!(d == b);
    assert_eq!(d.as_str(), "carol");
}

#[test]
fn role_status_reports_its_role() {
    assert_eq!(RoleStatus::Available(Role::Mage).role(), Role::Mage);
    assert_eq!(RoleStatus::NotAvailable(Role::Rogue).role(), Role::Rogue);
}

#[test]
fn turn_status_is_ready_and_applies_the_test() {
    let ready = TurnStatus::Ready(GamePhaseKind::DropAbility);
    assert!(ready.is_ready_and(|p| p == GamePhaseKind::DropAbility));
    assert!(!ready.is_ready_and(|p| p == GamePhaseKind::Defend));
    let wait = TurnStatus::Wait;
    assert!(!wait.is_ready_and(|_| true));
}

#[test]
fn message_decoder_keeps_its_stream() {
    let d = MessageDecoder::new(7_u32);
    assert_eq!(d.stream, 7);
    let s = ascension::shared::MessageDecoder::new(vec![1_u8, 2, 3]);
    assert_eq!(s.stream, vec![1, 2, 3]);
}
