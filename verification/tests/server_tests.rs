use ascension::game::{Rank, Role};
use ascension::protocol::{GameContextKind, TransitionError, Username};
use ascension::server::{
    Intro, SelectRole, ServerGameContext, ServerNextContextData, ServerStartGameData,
};

fn name(n: &str) -> Username {
    Username::new(n.to_string()).unwrap()
}

fn start_data() -> ServerNextContextData {
    ServerNextContextData::Game(ServerStartGameData { monsters: [None, None] })
}

#[test]
fn server_context_walks_every_phase() {
    let ctx = ServerGameContext::Intro(Intro { name: Some(name("alice")) });
    let ctx = ctx.to_next(&ServerNextContextData::Home).unwrap();
    assert_eq!(ctx.kind(), GameContextKind::Home);
    assert_eq!(ctx.get_username().as_str(), "alice");
    let ctx = ctx.to_next(&ServerNextContextData::Roles).unwrap();
    assert_eq!(ctx.kind(), GameContextKind::Roles);
    assert_eq!(ctx.role(), None);
    let ctx = match ctx {
        ServerGameContext::SelectRole(s) => {
            ServerGameContext::SelectRole(SelectRole { name: s.name, role: Some(Role::Paladin) })
        }
        _ => panic!("expected the Roles context"),
    };
    let ctx = ctx.to_next(&start_data()).unwrap();
    match &ctx {
        ServerGameContext::Game(g) => {
            assert_eq!(g.role, Role::Paladin);
            assert_eq!(g.abilities.suit, Role::Paladin.suit());
            assert_eq!(g.abilities.ranks.len(), 12);
            assert!(g.selected_ability.is_none());
            // a full pile holds every rank exactly once, whatever the order
            for r in Rank::all() {
                assert_eq!(g.abilities.ranks.iter().filter(|x| **x == r).count(), 1);
            }
        }
        _ => panic!("expected the Game context"),
    }
    assert_eq!(ctx.get_username().as_str(), "alice");
}

#[test]
fn intro_without_a_name_cannot_advance() {
    let ctx = ServerGameContext::Intro(Intro { name: None });
    let (back, err) = ctx.to_next(&ServerNextContextData::Home).unwrap_err();
    assert_eq!(err, TransitionError::MissingName);
    assert!(matches!(back, ServerGameContext::Intro(Intro { name: None })));
}

#[test]
fn roles_without_a_choice_cannot_start() {
    let ctx = ServerGameContext::SelectRole(SelectRole { name: name("bob"), role: None });
    let (back, err) = ctx.to_next(&start_data()).unwrap_err();
    assert_eq!(err, TransitionError::MissingRole);
    assert!(matches!(back, ServerGameContext::SelectRole(_)));
}

#[test]
fn skipping_a_phase_is_refused() {
    let ctx = ServerGameContext::Intro(Intro { name: Some(name("alice")) });
    let (back, err) = ctx.to_next(&ServerNextContextData::Roles).unwrap_err();
    match err {
        TransitionError::Unexpected(u) => {
            assert_eq!(u.expected, GameContextKind::Intro);
            assert_eq!(u.found, GameContextKind::Roles);
        }
        _ => panic!("expected an unexpected-context refusal"),
    }
    assert!(matches!(back, ServerGameContext::Intro(_)));
}

#[test]
fn asking_for_the_same_phase_is_a_noop() {
    let ctx = ServerGameContext::Intro(Intro { name: None });
    let same = ctx.to_next(&ServerNextContextData::Intro).unwrap();
    assert!(matches!(same, ServerGameContext::Intro(Intro { name: None })));
}
