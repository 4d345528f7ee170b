//! The session state machine: starting a session, applying the user's
//! requests and answering with the automated player's counter-turns.
use vstd::prelude::*;

use crate::io::{DifficultyLevel, GameError, GameState, PebblesAction, PebblesEvent, PebblesInit, Player};
use crate::strategy::{choose_move, draw_first_player, first_player_for, move_for};

verus! {

/// The automated player's turn on `s`: its move comes off the pile and is
/// reported, followed by its win when the pile is then empty.
pub open spec fn program_turn_spec(s: GameState, random: u32) -> (GameState, Seq<PebblesEvent>) {
    let m = move_for(
        s.pebbles_remaining as int,
        s.max_pebbles_per_turn as int,
        s.difficulty,
        random as int,
    );
    let left = (s.pebbles_remaining - m) as u32;
    if left == 0 {
        (
            GameState { pebbles_remaining: left, winner: Some(Player::Program), ..s },
            seq![PebblesEvent::CounterTurn(m as u32), PebblesEvent::Won(Player::Program)],
        )
    } else {
        (GameState { pebbles_remaining: left, ..s }, seq![PebblesEvent::CounterTurn(m as u32)])
    }
}

/// A fresh session of a positive configuration, after the automated
/// player's opening move when the draw lets it open.
pub open spec fn start_spec(
    difficulty: DifficultyLevel,
    pebbles_count: u32,
    max_pebbles_per_turn: u32,
    random: u32,
) -> (GameState, Seq<PebblesEvent>) {
    let s = GameState {
        pebbles_count,
        max_pebbles_per_turn,
        pebbles_remaining: pebbles_count,
        difficulty,
        first_player: first_player_for(random),
        winner: None,
    };
    if s.first_player == Player::Program {
        program_turn_spec(s, random)
    } else {
        (s, Seq::empty())
    }
}

/// Whether a configuration may start a session.
pub open spec fn valid_config(pebbles_count: u32, max_pebbles_per_turn: u32) -> bool {
    pebbles_count > 0 && max_pebbles_per_turn > 0
}

/// Whether the user may remove `pebbles` from `s`.
pub open spec fn legal_turn(s: GameState, pebbles: u32) -> bool {
    &&& s.winner is None
    &&& 0 < pebbles <= s.max_pebbles_per_turn
    &&& pebbles <= s.pebbles_remaining
}

/// What a request does to a session: the new session and the events
/// reported, or the error, with the session then left as it was.
pub open spec fn handle_spec(s: GameState, action: PebblesAction, random: u32) -> Result<
    (GameState, Seq<PebblesEvent>),
    GameError,
> {
    match action {
        PebblesAction::Turn(pebbles) => {
            if s.winner is Some {
                Err(GameError::GameOver)
            } else if !legal_turn(s, pebbles) {
                Err(GameError::InvalidMove)
            } else {
                let after = GameState {
                    pebbles_remaining: (s.pebbles_remaining - pebbles) as u32,
                    ..s
                };
                if after.pebbles_remaining == 0 {
                    Ok(
                        (
                            GameState { winner: Some(Player::User), ..after },
                            seq![PebblesEvent::Won(Player::User)],
                        ),
                    )
                } else {
                    Ok(program_turn_spec(after, random))
                }
            }
        },
        PebblesAction::GiveUp => Ok(
            (
                GameState { winner: Some(Player::Program), ..s },
                seq![PebblesEvent::Won(Player::Program)],
            ),
        ),
        PebblesAction::Restart { difficulty, pebbles_count, max_pebbles_per_turn } => {
            if valid_config(pebbles_count, max_pebbles_per_turn) {
                Ok(start_spec(difficulty, pebbles_count, max_pebbles_per_turn, random))
            } else {
                Err(GameError::InvalidConfig)
            }
        },
    }
}

/// The automated player's turn: the move chosen under the session's policy
/// comes off the pile, and the win is recorded when the pile empties.
fn program_turn(game: &mut GameState, random: u32) -> (events: Vec<PebblesEvent>)
    requires
        old(game).pebbles_remaining > 0,
        old(game).max_pebbles_per_turn > 0,
    ensures
        (*final(game), events@) == program_turn_spec(*old(game), random),
{
    let m = choose_move(game.pebbles_remaining, game.max_pebbles_per_turn, game.difficulty, random);
    game.pebbles_remaining = game.pebbles_remaining - m;
    let mut events: Vec<PebblesEvent> = Vec::new();
    events.push(PebblesEvent::CounterTurn(m));
    if game.pebbles_remaining == 0 {
        game.winner = Some(Player::Program);
        events.push(PebblesEvent::Won(Player::Program));
    }
    proof {
        let (t, ev) = program_turn_spec(*old(game), random);
        assert(events@ =~= ev);
    }
    events
}

/// A fresh session of a configuration already known to be positive.
fn start(
    difficulty: DifficultyLevel,
    pebbles_count: u32,
    max_pebbles_per_turn: u32,
    random: u32,
) -> (r: (GameState, Vec<PebblesEvent>))
    requires
        valid_config(pebbles_count, max_pebbles_per_turn),
    ensures
        (r.0, r.1@) == start_spec(difficulty, pebbles_count, max_pebbles_per_turn, random),
{
    let first_player = draw_first_player(random);
    let mut game = GameState {
        pebbles_count,
        max_pebbles_per_turn,
        pebbles_remaining: pebbles_count,
        difficulty,
        first_player,
        winner: None,
    };
    match first_player {
        Player::Program => {
            let events = program_turn(&mut game, random);
            (game, events)
        },
        Player::User => {
            let events: Vec<PebblesEvent> = Vec::new();
            proof {
                assert(events@ =~= Seq::<PebblesEvent>::empty());
            }
            (game, events)
        },
    }
}

/// Creates a session from `config`, with `random` the entropy word drawn
/// for this request: a zero pile or a zero per-turn cap is refused.
pub fn init(config: PebblesInit, random: u32) -> (r: Result<(GameState, Vec<PebblesEvent>), GameError>)
    ensures
        r is Err <==> !valid_config(config.pebbles_count, config.max_pebbles_per_turn),
        r matches Err(e) ==> e == GameError::InvalidConfig,
        r matches Ok((s, events)) ==> (s, events@) == start_spec(
            config.difficulty,
            config.pebbles_count,
            config.max_pebbles_per_turn,
            random,
        ),
{
    if config.pebbles_count == 0 || config.max_pebbles_per_turn == 0 {
        return Err(GameError::InvalidConfig);
    }
    Ok(start(config.difficulty, config.pebbles_count, config.max_pebbles_per_turn, random))
}

/// Applies a request to the session, with `random` the entropy word drawn
/// for this request, and returns the events to report. A refused request
/// leaves the session as it was. A restart is held to the same
/// configuration rule as `init`.
pub fn handle(session: &mut Option<GameState>, action: PebblesAction, random: u32) -> (r: Result<
    Vec<PebblesEvent>,
    GameError,
>)
    ensures
        match *old(session) {
            None => {
                &&& r == Err::<Vec<PebblesEvent>, GameError>(GameError::NoSession)
                &&& *final(session) == *old(session)
            },
            Some(s) => match handle_spec(s, action, random) {
                Ok((t, events)) => {
                    &&& r matches Ok(v) && v@ == events
                    &&& *final(session) == Some(t)
                },
                Err(e) => {
                    &&& r == Err::<Vec<PebblesEvent>, GameError>(e)
                    &&& *final(session) == *old(session)
                },
            },
        },
{
    let game = match session {
        Some(game) => game,
        None => {
            return Err(GameError::NoSession);
        },
    };
    match action {
        PebblesAction::Turn(pebbles) => {
            if game.winner.is_some() {
                return Err(GameError::GameOver);
            }
            if pebbles == 0 || pebbles > game.max_pebbles_per_turn || pebbles
                > game.pebbles_remaining {
                return Err(GameError::InvalidMove);
            }
            game.pebbles_remaining = game.pebbles_remaining - pebbles;
            if game.pebbles_remaining == 0 {
                game.winner = Some(Player::User);
                let mut events: Vec<PebblesEvent> = Vec::new();
                events.push(PebblesEvent::Won(Player::User));
                proof {
                    assert(events@ =~= seq![PebblesEvent::Won(Player::User)]);
                }
                return Ok(events);
            }
            Ok(program_turn(game, random))
        },
        PebblesAction::GiveUp => {
            game.winner = Some(Player::Program);
            let mut events: Vec<PebblesEvent> = Vec::new();
            events.push(PebblesEvent::Won(Player::Program));
            proof {
                assert(events@ =~= seq![PebblesEvent::Won(Player::Program)]);
            }
            Ok(events)
        },
        PebblesAction::Restart { difficulty, pebbles_count, max_pebbles_per_turn } => {
            if pebbles_count == 0 || max_pebbles_per_turn == 0 {
                return Err(GameError::InvalidConfig);
            }
            let (fresh, events) = start(difficulty, pebbles_count, max_pebbles_per_turn, random);
            *game = fresh;
            Ok(events)
        },
    }
}

/// A snapshot of the session, or `NoSession` before one was created.
pub fn state(session: &Option<GameState>) -> (r: Result<GameState, GameError>)
    ensures
        match *session {
            Some(s) => r == Ok::<GameState, GameError>(s),
            None => r == Err::<GameState, GameError>(GameError::NoSession),
        },
{
    match session {
        Some(game) => Ok(*game),
        None => Err(GameError::NoSession),
    }
}

/// The session after a request: the new one, or the old one where the
/// request was refused.
pub open spec fn after(s: GameState, action: PebblesAction, random: u32) -> GameState {
    match handle_spec(s, action, random) {
        Ok((t, _)) => t,
        Err(_) => s,
    }
}

/// The automated player's turn keeps the session invariant.
proof fn lemma_program_turn_wf(s: GameState, random: u32)
    requires
        s.pebbles_count > 0,
        s.max_pebbles_per_turn > 0,
        0 < s.pebbles_remaining <= s.pebbles_count,
    ensures
        program_turn_spec(s, random).0.wf(),
        program_turn_spec(s, random).0.winner == s.winner || program_turn_spec(
            s,
            random,
        ).0.winner == Some(Player::Program),
{
    let m = move_for(
        s.pebbles_remaining as int,
        s.max_pebbles_per_turn as int,
        s.difficulty,
        random as int,
    );
    let lo = crate::strategy::min_int(s.max_pebbles_per_turn as int, s.pebbles_remaining as int);
    assert(0 <= (random as int) % lo < lo) by {
        vstd::arithmetic::div_mod::lemma_mod_bound(random as int, lo);
    }
    assert(0 <= (random as int) % (s.max_pebbles_per_turn as int) < s.max_pebbles_per_turn) by {
        vstd::arithmetic::div_mod::lemma_mod_bound(random as int, s.max_pebbles_per_turn as int);
    }
    assert(0 <= (s.pebbles_remaining as int) % (s.max_pebbles_per_turn + 1)
        < s.max_pebbles_per_turn + 1) by {
        vstd::arithmetic::div_mod::lemma_mod_bound(
            s.pebbles_remaining as int,
            s.max_pebbles_per_turn + 1,
        );
    }
    if s.pebbles_remaining > s.max_pebbles_per_turn {
        assert((s.pebbles_remaining as int) % (s.max_pebbles_per_turn + 1)
            <= s.pebbles_remaining) by {
            vstd::arithmetic::div_mod::lemma_mod_self_0(s.max_pebbles_per_turn + 1);
            vstd::arithmetic::div_mod::lemma_mod_decreases(
                s.pebbles_remaining as nat,
                (s.max_pebbles_per_turn + 1) as nat,
            );
        }
    }
    assert(1 <= m <= s.pebbles_remaining);
}

/// A fresh session of a positive configuration satisfies the session
/// invariant.
pub proof fn lemma_start_wf(
    difficulty: DifficultyLevel,
    pebbles_count: u32,
    max_pebbles_per_turn: u32,
    random: u32,
)
    requires
        valid_config(pebbles_count, max_pebbles_per_turn),
    ensures
        start_spec(difficulty, pebbles_count, max_pebbles_per_turn, random).0.wf(),
{
    let s = GameState {
        pebbles_count,
        max_pebbles_per_turn,
        pebbles_remaining: pebbles_count,
        difficulty,
        first_player: first_player_for(random),
        winner: None,
    };
    lemma_program_turn_wf(s, random);
}

/// Every request keeps the session invariant: in particular a session
/// whose pile is empty has a winner.
pub proof fn lemma_handle_keeps_wf(s: GameState, action: PebblesAction, random: u32)
    requires
        s.wf(),
    ensures
        after(s, action, random).wf(),
{
    match action {
        PebblesAction::Turn(pebbles) => {
            if legal_turn(s, pebbles) {
                let t = GameState { pebbles_remaining: (s.pebbles_remaining - pebbles) as u32, ..s };
                if t.pebbles_remaining > 0 {
                    lemma_program_turn_wf(t, random);
                }
            }
        },
        PebblesAction::GiveUp => {},
        PebblesAction::Restart { difficulty, pebbles_count, max_pebbles_per_turn } => {
            if valid_config(pebbles_count, max_pebbles_per_turn) {
                lemma_start_wf(difficulty, pebbles_count, max_pebbles_per_turn, random);
            }
        },
    }
}

/// A positive configuration always starts a session; when the user opens,
/// the pile is whole and nobody has won.
pub proof fn lemma_init_user_opens(config: PebblesInit, random: u32)
    requires
        valid_config(config.pebbles_count, config.max_pebbles_per_turn),
        first_player_for(random) == Player::User,
    ensures
        ({
            let (s, events) = start_spec(
                config.difficulty,
                config.pebbles_count,
                config.max_pebbles_per_turn,
                random,
            );
            &&& s.pebbles_remaining == config.pebbles_count
            &&& s.winner is None
            &&& events.len() == 0
        }),
{
}

/// A legal turn is accepted and takes exactly its pebbles off the pile
/// before any counter-turn: either it empties the pile and the user wins,
/// or the automated player then takes `m >= 1` more and reports `m`.
pub proof fn lemma_turn_takes_its_pebbles(s: GameState, pebbles: u32, random: u32)
    requires
        s.wf(),
        legal_turn(s, pebbles),
    ensures
        handle_spec(s, PebblesAction::Turn(pebbles), random) matches Ok((t, events)) && (if pebbles
            == s.pebbles_remaining {
            &&& t.pebbles_remaining == 0
            &&& t.winner == Some(Player::User)
            &&& events == seq![PebblesEvent::Won(Player::User)]
        } else {
            &&& events.len() >= 1
            &&& events[0] matches PebblesEvent::CounterTurn(m)
            &&& m >= 1
            &&& t.pebbles_remaining == s.pebbles_remaining - pebbles - m
        }),
{
    let t = GameState { pebbles_remaining: (s.pebbles_remaining - pebbles) as u32, ..s };
    if t.pebbles_remaining > 0 {
        lemma_program_turn_wf(t, random);
    }
}

/// Once a session has a winner it keeps that winner through every request
/// but a restart; conceding on a game the program has won changes nothing.
pub proof fn lemma_winner_is_kept(s: GameState, action: PebblesAction, random: u32)
    requires
        s.winner is Some,
        !(action is Restart),
        action is GiveUp ==> s.winner == Some(Player::Program),
    ensures
        after(s, action, random).winner == s.winner,
{
}

/// A session without a winner gets at most one, and only by a turn that
/// empties the pile or by a concession.
pub proof fn lemma_winner_is_set_once(s: GameState, action: PebblesAction, random: u32)
    requires
        s.wf(),
        s.winner is None,
        !(action is Restart),
    ensures
        after(s, action, random).winner is Some ==> (after(s, action, random).pebbles_remaining
            == 0 || action is GiveUp),
{
    lemma_handle_keeps_wf(s, action, random);
    if let PebblesAction::Turn(pebbles) = action {
        if legal_turn(s, pebbles) {
            let t = GameState { pebbles_remaining: (s.pebbles_remaining - pebbles) as u32, ..s };
            if t.pebbles_remaining > 0 {
                lemma_program_turn_wf(t, random);
            }
        }
    }
}

} // verus!
