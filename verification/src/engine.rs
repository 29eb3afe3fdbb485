use vstd::prelude::*;

use crate::color::{PieceColor, PALETTE_SIZE};
use crate::random::random_usize_below;

verus! {

broadcast use vstd::array::group_array_axioms;

/// The external rule engine's session state, held opaquely: it keeps the
/// secret pegs and scores each submitted guess against them.
#[verifier::external_type_specification]
#[verifier::external_body]
pub struct ExGameState(mastermind::GameState);

/// The secret pegs a rule-engine session holds, as palette colors.
pub uninterp spec fn engine_answer(game: mastermind::GameState) -> Seq<PieceColor>;

/// Number of raised marks in a score report.
pub open spec fn count_trues(marks: Seq<bool>) -> nat
    decreases marks.len(),
{
    if marks.len() == 0 {
        0
    } else {
        count_trues(marks.drop_last()) + if marks.last() {
            1nat
        } else {
            0nat
        }
    }
}

/// Number of positions, counted from the end, at which two codes agree.
pub open spec fn exact_matches(code: Seq<PieceColor>, answer: Seq<PieceColor>) -> nat
    decreases code.len(),
{
    if code.len() == 0 || answer.len() == 0 {
        0
    } else {
        exact_matches(code.drop_last(), answer.drop_last()) + if code.last() == answer.last() {
            1nat
        } else {
            0nat
        }
    }
}

/// A code never agrees with another in more places than it has.
proof fn lemma_exact_matches_bound(code: Seq<PieceColor>, answer: Seq<PieceColor>)
    ensures
        exact_matches(code, answer) <= code.len(),
    decreases code.len(),
{
    if code.len() > 0 && answer.len() > 0 {
        lemma_exact_matches_bound(code.drop_last(), answer.drop_last());
    }
}

/// A code agrees with itself everywhere.
proof fn lemma_exact_matches_self(code: Seq<PieceColor>)
    ensures
        exact_matches(code, code) == code.len(),
    decreases code.len(),
{
    if code.len() > 0 {
        assert(code.drop_last().len() == code.len() - 1);
        lemma_exact_matches_self(code.drop_last());
    }
}

/// Two codes of one length that agree everywhere are the same code.
proof fn lemma_full_exact_match(code: Seq<PieceColor>, answer: Seq<PieceColor>)
    requires
        code.len() == answer.len(),
        exact_matches(code, answer) == code.len(),
    ensures
        code =~= answer,
    decreases code.len(),
{
    if code.len() > 0 {
        lemma_exact_matches_bound(code.drop_last(), answer.drop_last());
        assert(code.last() == answer.last());
        lemma_full_exact_match(code.drop_last(), answer.drop_last());
        assert forall|i: int| 0 <= i < code.len() implies code[i] == answer[i] by {
            if i < code.len() - 1 {
                assert(code.drop_last()[i] == code[i] && answer.drop_last()[i] == answer[i]);
            }
        }
    }
}

/// Relies on mastermind::GameState::new_with_answer: builds a session whose
/// secret is exactly the given four pegs, one engine peg per palette color.
#[verifier::external_body]
fn engine_new(secret: &[PieceColor; 4]) -> (game: mastermind::GameState)
    ensures
        engine_answer(game) == secret@,
{
    let pegs: Vec<mastermind::Peg> = secret
        .iter()
        .map(|c| mastermind::Peg::new(mastermind::Color::new(c.value() as u32)))
        .collect();
    mastermind::GameState::new_with_answer(pegs)
}

/// Relies on mastermind::GameState::step: scores one four-peg guess against
/// the session's secret, unchanged from call to call, and answers one mark
/// per scored peg — `true` for a peg right in color and place, `false` for
/// a color matched elsewhere — with the `true` marks first and never more
/// marks than the four guess pegs. The raised marks are exactly the guess
/// positions that agree with the secret.
#[verifier::external_body]
fn engine_step(game: &mut mastermind::GameState, code: &[PieceColor; 4]) -> (marks: Vec<bool>)
    requires
        engine_answer(*old(game)).len() == 4,
    ensures
        engine_answer(*final(game)) == engine_answer(*old(game)),
        marks@.len() <= 4,
        count_trues(marks@) == exact_matches(code@, engine_answer(*old(game))),
        forall|i: int, j: int| 0 <= i < j < marks@.len() && marks@[j] ==> marks@[i],
{
    let guess: Vec<mastermind::Peg> = code
        .iter()
        .map(|c| mastermind::Peg::new(mastermind::Color::new(c.value() as u32)))
        .collect();
    let scored = game.step(guess);
    scored.iter().map(|c| matches!(c, mastermind::Correctness::Total)).collect()
}

/// One scored turn: how many pegs matched exactly (right color, right
/// place) and how many matched in color only.
#[derive(Clone, Copy, Debug, PartialEq, Eq, Structural)]
pub struct Score {
    pub exact: usize,
    pub partial: usize,
}

/// The engine's verdict on a submitted code.
#[derive(Clone, Debug)]
pub enum Outcome {
    /// Still playable: the whole history of scored turns, oldest first.
    Continuing { history: Vec<Score> },
    /// The code was broken: the secret stands revealed and play ends.
    Finished { secret: [PieceColor; 4] },
}

/// One rule-engine session: the opaque engine state, the plain copy of the
/// secret it was created with, and the history of turns scored so far.
pub struct Game {
    engine: mastermind::GameState,
    secret: [PieceColor; 4],
    history: Vec<Score>,
}

impl Game {
    /// Well-formed session: the opaque engine state holds exactly the
    /// session's own copy of the secret, and every scored turn fits the
    /// four board columns.
    pub closed spec fn wf(&self) -> bool {
        &&& engine_answer(self.engine) == self.secret@
        &&& forall|i: int| 0 <= i < self.history@.len() ==> (#[trigger] self.history@[i]).exact
            + self.history@[i].partial <= 4
    }

    /// The turns scored so far, oldest first.
    pub closed spec fn spec_history(&self) -> Seq<Score> {
        self.history@
    }

    /// The secret the session was created with.
    pub closed spec fn spec_secret(&self) -> Seq<PieceColor> {
        self.secret@
    }

    /// A fresh session over a randomly drawn secret, with no turns scored.
    pub fn new() -> (game: Game)
        ensures
            game.wf(),
            game.spec_history() =~= Seq::<Score>::empty(),
            game.spec_secret().len() == 4,
    {
        let secret: [PieceColor; 4] = [
            PieceColor::from_value(random_usize_below(PALETTE_SIZE)),
            PieceColor::from_value(random_usize_below(PALETTE_SIZE)),
            PieceColor::from_value(random_usize_below(PALETTE_SIZE)),
            PieceColor::from_value(random_usize_below(PALETTE_SIZE)),
        ];
        Game::with_secret(secret)
    }

    /// A session over a caller-chosen secret, with no turns scored: how a
    /// game over a known code is set up.
    pub fn with_secret(secret: [PieceColor; 4]) -> (game: Game)
        ensures
            game.wf(),
            game.spec_history() =~= Seq::<Score>::empty(),
            game.spec_secret() == secret@,
    {
        let engine = engine_new(&secret);
        Game { engine, secret, history: Vec::new() }
    }

    /// Submits a completed code to the engine. A fully exact score ends the
    /// game and reveals the secret; any other score is appended to the
    /// history, which the outcome reports whole.
    pub fn play(&mut self, code: [PieceColor; 4]) -> (outcome: Outcome)
        requires
            old(self).wf(),
        ensures
            final(self).wf(),
            final(self).spec_secret() == old(self).spec_secret(),
            match outcome {
                Outcome::Continuing { history } => {
                    &&& final(self).spec_history() == history@
                    &&& history@.drop_last() == old(self).spec_history()
                    &&& history@.len() == old(self).spec_history().len() + 1
                    &&& history@.last().exact == exact_matches(code@, old(self).spec_secret())
                    &&& history@.last().exact < 4
                    &&& history@.last().exact + history@.last().partial <= 4
                    &&& code@ != old(self).spec_secret()
                },
                Outcome::Finished { secret } => {
                    &&& secret@ == old(self).spec_secret()
                    &&& code@ == old(self).spec_secret()
                    &&& final(self).spec_history() == old(self).spec_history()
                },
            },
    {
        let marks = engine_step(&mut self.engine, &code);
        let mut exact: usize = 0;
        let mut partial: usize = 0;
        let mut i: usize = 0;
        while i < marks.len()
            invariant
                i <= marks@.len(),
                marks@.len() <= 4,
                exact + partial == i,
                exact == count_trues(marks@.take(i as int)),
            decreases marks@.len() - i,
        {
            proof {
                assert(marks@.take(i + 1).drop_last() =~= marks@.take(i as int));
                assert(marks@.take(i + 1).last() == marks@[i as int]);
            }
            if marks[i] {
                exact = exact + 1;
            } else {
                partial = partial + 1;
            }
            i += 1;
        }
        proof {
            assert(marks@.take(marks@.len() as int) =~= marks@);
            lemma_exact_matches_bound(code@, self.secret@);
        }
        if exact >= 4 {
            proof {
                lemma_full_exact_match(code@, self.secret@);
            }
            Outcome::Finished { secret: self.secret }
        } else {
            proof {
                if code@ == self.secret@ {
                    lemma_exact_matches_self(code@);
                }
            }
            self.history.push(Score { exact, partial });
            let history = copy_scores(&self.history);
            proof {
                assert(history@.drop_last() =~= old(self).spec_history());
            }
            Outcome::Continuing { history }
        }
    }
}

/// A plain copy of a score list, element for element.
fn copy_scores(scores: &Vec<Score>) -> (r: Vec<Score>)
    ensures
        r@ == scores@,
{
    let mut r: Vec<Score> = Vec::new();
    let mut i: usize = 0;
    while i < scores.len()
        invariant
            i <= scores@.len(),
            r@ =~= scores@.take(i as int),
        decreases scores@.len() - i,
    {
        r.push(scores[i]);
        i += 1;
    }
    proof {
        assert(scores@.take(scores@.len() as int) =~= scores@);
    }
    r
}

/// The rule-engine session as the application holds it.
pub struct Mastermind {
    pub state: Game,
}

impl Mastermind {
    /// A fresh session for a new game.
    pub fn new() -> (m: Mastermind)
        ensures
            m.state.wf(),
            m.state.spec_history() =~= Seq::<Score>::empty(),
            m.state.spec_secret().len() == 4,
    {
        Mastermind { state: Game::new() }
    }
}

} // verus!
