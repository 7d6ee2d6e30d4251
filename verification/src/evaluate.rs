use vstd::prelude::*;

use crate::dependency::{Dependency, Deps};
use crate::json::{ascii, pair, pair_json, push_str, utf8};
use crate::reply::{
    degraded, degraded_reply, forward, forward_reply, malformed, malformed_reply, ok, ok_reply,
    Reply, STATUS_OK, STATUS_UNPROCESSABLE,
};

verus! {

/// The operands of `POST /`, each as the JSON text the caller sent. They are never inspected
/// here: the float primitives validate their own operands.
pub struct EvalRequest {
    /// The radius of the cone's circular base.
    pub radius: Vec<u8>,
    /// The height of the cone.
    pub height: Vec<u8>,
}

/// How a call to a dependency came out.
pub enum CallResult {
    /// The dependency could not be reached.
    Unreachable,
    /// The dependency answered with this status and this JSON body.
    Answered { status: u16, body: Vec<u8> },
}

/// How a call to a dependency came out, as values.
pub enum Answer {
    Unreachable,
    Answered(u16, Seq<u8>),
}

impl View for CallResult {
    type V = Answer;

    open spec fn view(&self) -> Answer {
        match self {
            CallResult::Unreachable => Answer::Unreachable,
            CallResult::Answered { status, body } => Answer::Answered(*status, body@),
        }
    }
}

/// A call to make: post `body` to the dependency at `url`.
pub struct Call {
    pub dependency: Dependency,
    pub url: String,
    pub body: Vec<u8>,
}

impl View for Call {
    type V = (Dependency, Seq<char>, Seq<u8>);

    open spec fn view(&self) -> (Dependency, Seq<char>, Seq<u8>) {
        (self.dependency, self.url@, self.body@)
    }
}

/// Where an evaluation stands: its operands and the numbers the primitives have given so far,
/// in order `p`, `r2`, `base`, `col`.
pub struct Progress {
    pub radius: Seq<u8>,
    pub height: Seq<u8>,
    pub results: Seq<Seq<u8>>,
}

/// Which primitive the call at `stage` goes to: `pi`, three multiplications, one division.
pub open spec fn planned_dependency(stage: nat) -> Dependency {
    if stage == 0 {
        Dependency::Pi
    } else if stage < 4 {
        Dependency::FloatMultiply
    } else {
        Dependency::FloatDivide
    }
}

/// The request body of the call at the stage `progress` has reached:
/// `pi()` with `{}`, then `r2 = radius * radius`, `base = p * r2`, `col = base * height`
/// and `col / 3`.
pub open spec fn planned_body(progress: Progress) -> Seq<u8> {
    let r = progress.results;
    if r.len() == 0 {
        utf8("{}")
    } else if r.len() == 1 {
        pair_json(progress.radius, progress.radius)
    } else if r.len() == 2 {
        pair_json(r[0], r[1])
    } else if r.len() == 3 {
        pair_json(r[2], progress.height)
    } else {
        pair_json(r[3], utf8("3"))
    }
}

/// The call an evaluation at `progress` makes, with its endpoints from `deps`.
pub open spec fn planned_call(deps: Deps, progress: Progress) -> (Dependency, Seq<char>, Seq<u8>) {
    let dependency = planned_dependency(progress.results.len());
    (dependency, deps.url_of(dependency), planned_body(progress))
}

/// What one dependency's answer amounts to: its body where it answered `200`, its answer
/// passed on where it answered `422`, and `503` naming it otherwise.
pub open spec fn ask_model(answer: Answer, dependency: Dependency) -> Result<Seq<u8>, (u16, Seq<u8>)> {
    match answer {
        Answer::Unreachable => Err(degraded_reply(dependency)),
        Answer::Answered(status, body) => {
            if status == STATUS_OK {
                Ok(body)
            } else if status == STATUS_UNPROCESSABLE {
                Err(forward_reply(STATUS_UNPROCESSABLE, body))
            } else {
                Err(degraded_reply(dependency))
            }
        },
    }
}

/// The next move of an evaluation: a final reply, or the progress from which it calls on.
pub enum Advance {
    Finish((u16, Seq<u8>)),
    Continue(Progress),
}

/// What an evaluation at `progress` does with the number (as JSON text) the pending call gave,
/// or with its absence.
pub open spec fn accept_model(progress: Progress, number: Option<Seq<u8>>) -> Advance {
    match number {
        None => Advance::Finish(malformed_reply(planned_dependency(progress.results.len()))),
        Some(n) => {
            if progress.results.len() >= 4 {
                Advance::Finish(ok_reply(progress.radius, progress.height, n))
            } else {
                Advance::Continue(Progress { results: progress.results.push(n), ..progress })
            }
        },
    }
}

/// What an evaluation at `progress` does with the answer to its pending call.
pub open spec fn resume_model(progress: Progress, answer: Answer) -> Advance {
    match ask_model(answer, planned_dependency(progress.results.len())) {
        Err(reply) => Advance::Finish(reply),
        Ok(body) => accept_model(progress, numeric_field_text(body, RESULT_FIELD@)),
    }
}

/// The field of a primitive's JSON answer that carries its number.
pub const RESULT_FIELD: &'static str = "result";

/// The number that the field `key` of the JSON document `body` holds, read as a double and
/// written back as JSON text; `None` where `body` is no JSON document or that field is no number.
pub uninterp spec fn numeric_field_text(body: Seq<u8>, key: Seq<char>) -> Option<Seq<u8>>;

/// ASCII digits, at least one.
pub open spec fn all_digits(s: Seq<u8>) -> bool {
    s.len() >= 1 && forall|i: int| 0 <= i < s.len() ==> 48 <= #[trigger] s[i] <= 57
}

/// A JSON integer of at most fifteen digits, without a leading zero.
pub open spec fn short_integer(s: Seq<u8>) -> bool {
    all_digits(s) && s.len() <= 15 && (s[0] != 48 || s.len() == 1)
}

/// A plain JSON decimal of any magnitude up to fifteen integer digits: a short integer,
/// optionally followed by `.` and one to fifteen digits.
pub open spec fn plain_decimal(t: Seq<u8>) -> bool {
    ||| short_integer(t)
    ||| exists|i: int|
        0 < i < t.len() && #[trigger] t[i] == 46 && short_integer(t.take(i)) && all_digits(
            t.skip(i + 1),
        ) && t.len() - i - 1 <= 15
}

/// A field name that JSON writes as it is: lowercase ASCII letters and underscores.
pub open spec fn plain_key(key: Seq<char>) -> bool {
    key.len() >= 1 && forall|i: int|
        0 <= i < key.len() ==> ('a' <= #[trigger] key[i] <= 'z' || key[i] == '_')
}

/// The JSON object holding just the number text `number` under `key`: `{"KEY":N}`.
pub open spec fn number_object(key: Seq<char>, number: Seq<u8>) -> Seq<u8> {
    ascii("{\""@) + ascii(key) + ascii("\":"@) + number + ascii("}"@)
}

/// The view of an optional byte string.
pub open spec fn bytes_view(o: Option<Vec<u8>>) -> Option<Seq<u8>> {
    match o {
        Some(v) => Some(v@),
        None => None,
    }
}

/// The view of an answer to `ask`.
pub open spec fn asked_view(r: Result<Vec<u8>, Reply>) -> Result<Seq<u8>, (u16, Seq<u8>)> {
    match r {
        Ok(body) => Ok(body@),
        Err(reply) => Err(reply@),
    }
}

/// Reads the number in the field `key` of a JSON document: `serde_json` parses the body
/// (`from_slice`), looks the field up (`Value::get`), reads it as a double (`Value::as_f64`)
/// and writes it back (`Value::from`, `to_vec`). The contract claims that the outcome is the
/// one function of `body` and `key` named `numeric_field_text`, and that an object holding a
/// plain decimal under a plain key gives a number, whatever its magnitude: serde_json reads the
/// decimal as an integer or a finite double, and `as_f64` gives a double for both.
#[verifier::external_body]
fn numeric_field(body: &[u8], key: &str) -> (number: Option<Vec<u8>>)
    ensures
        bytes_view(number) == numeric_field_text(body@, key@),
        forall|t: Seq<u8>|
            plain_key(key@) && plain_decimal(t) && body@ == #[trigger] number_object(key@, t)
                ==> number is Some,
{
    let document: serde_json::Value = match serde_json::from_slice(body) {
        Ok(document) => document,
        Err(_) => return None,
    };
    match document.get(key).and_then(serde_json::Value::as_f64) {
        Some(number) => serde_json::to_vec(&serde_json::Value::from(number)).ok(),
        None => None,
    }
}

/// Maps the outcome of a call to `dependency` to its body (on `200`) or to the reply the
/// caller surfaces as it is: `503` where the dependency is unreachable or answers anything but
/// `200` or `422`, and its own answer where it answers `422` (it rejected the input).
pub fn ask(outcome: CallResult, dependency: Dependency) -> (r: Result<Vec<u8>, Reply>)
    ensures
        asked_view(r) == ask_model(outcome@, dependency),
{
    match outcome {
        CallResult::Unreachable => Err(degraded(dependency)),
        CallResult::Answered { status, body } => {
            if status == STATUS_OK {
                Ok(body)
            } else if status == STATUS_UNPROCESSABLE {
                Err(forward(STATUS_UNPROCESSABLE, body))
            } else {
                Err(degraded(dependency))
            }
        },
    }
}

/// An evaluation of `POST /` in progress: `V = (1/3) * pi * r^2 * height`, each arithmetic
/// step delegated to a float primitive, one call at a time.
pub struct Evaluation {
    deps: Deps,
    radius: Vec<u8>,
    height: Vec<u8>,
    results: Vec<Vec<u8>>,
}

/// The next move of an evaluation: the call to make next, or the final reply.
pub enum Step {
    Continue(Evaluation, Call),
    Finished(Reply),
}

impl Evaluation {
    #[verifier::type_invariant]
    spec fn bounded(self) -> bool {
        self.results@.len() < 5
    }

    /// The operands and the numbers gathered so far.
    pub closed spec fn progress(self) -> Progress {
        Progress {
            radius: self.radius@,
            height: self.height@,
            results: self.results@.map_values(|v: Vec<u8>| v@),
        }
    }

    /// The endpoints this evaluation calls.
    pub closed spec fn deps(self) -> Deps {
        self.deps
    }

    /// Whether `step` is the exec form of `advance`, taken by this evaluation.
    pub open spec fn takes(self, step: Step, advance: Advance) -> bool {
        match (step, advance) {
            (Step::Finished(reply), Advance::Finish(r)) => reply@ == r,
            (Step::Continue(next, call), Advance::Continue(p)) => {
                &&& next.progress() == p
                &&& next.deps() == self.deps()
                &&& call@ == planned_call(self.deps(), p)
            },
            _ => false,
        }
    }

    /// Begins an evaluation: the first call asks `pi` with an empty body.
    pub fn start(deps: Deps, request: EvalRequest) -> (r: (Evaluation, Call))
        ensures
            r.0.progress() == (Progress {
                radius: request.radius@,
                height: request.height@,
                results: Seq::empty(),
            }),
            r.0.deps() == deps,
            r.1@ == planned_call(deps, r.0.progress()),
    {
        let mut body: Vec<u8> = Vec::new();
        push_str(&mut body, "{}");
        let call = Call { dependency: Dependency::Pi, url: deps.url(Dependency::Pi), body };
        let evaluation = Evaluation {
            deps,
            radius: request.radius,
            height: request.height,
            results: Vec::new(),
        };
        proof {
            assert(evaluation.progress().results =~= Seq::<Seq<u8>>::empty());
        }
        (evaluation, call)
    }

    /// The call this evaluation has pending.
    fn pending_call(&self) -> (call: Call)
        ensures
            call@ == planned_call(self.deps(), self.progress()),
    {
        proof {
            use_type_invariant(self);
        }
        let stage = self.results.len();
        let ghost p = self.progress();
        assert(p.results.len() == stage);
        if stage == 0 {
            let mut body: Vec<u8> = Vec::new();
            push_str(&mut body, "{}");
            Call { dependency: Dependency::Pi, url: self.deps.url(Dependency::Pi), body }
        } else if stage == 1 {
            let body = pair(self.radius.as_slice(), self.radius.as_slice());
            Call { dependency: Dependency::FloatMultiply, url: self.deps.url(Dependency::FloatMultiply), body }
        } else if stage == 2 {
            assert(p.results[0] == self.results@[0]@);
            assert(p.results[1] == self.results@[1]@);
            let body = pair(self.results[0].as_slice(), self.results[1].as_slice());
            Call { dependency: Dependency::FloatMultiply, url: self.deps.url(Dependency::FloatMultiply), body }
        } else if stage == 3 {
            assert(p.results[2] == self.results@[2]@);
            let body = pair(self.results[2].as_slice(), self.height.as_slice());
            Call { dependency: Dependency::FloatMultiply, url: self.deps.url(Dependency::FloatMultiply), body }
        } else {
            assert(p.results[3] == self.results@[3]@);
            let body = pair(self.results[3].as_slice(), "3".as_bytes());
            Call { dependency: Dependency::FloatDivide, url: self.deps.url(Dependency::FloatDivide), body }
        }
    }

    /// The dependency the pending call goes to.
    pub fn pending_dependency(&self) -> (dependency: Dependency)
        ensures
            dependency == planned_dependency(self.progress().results.len()),
    {
        let stage = self.results.len();
        if stage == 0 {
            Dependency::Pi
        } else if stage < 4 {
            Dependency::FloatMultiply
        } else {
            Dependency::FloatDivide
        }
    }

    /// Takes the number the pending call gave (`None` where its `200` body held none): after
    /// the division the volume is the reply, before it the next call is made; a missing number
    /// is a `500` naming the dependency.
    pub fn accept(self, number: Option<Vec<u8>>) -> (step: Step)
        ensures
            self.takes(step, accept_model(self.progress(), bytes_view(number))),
    {
        proof {
            use_type_invariant(&self);
        }
        let dependency = self.pending_dependency();
        match number {
            None => Step::Finished(malformed(dependency)),
            Some(n) => {
                if self.results.len() >= 4 {
                    Step::Finished(ok(self.radius, self.height, n))
                } else {
                    let Evaluation { deps, radius, height, results } = self;
                    let mut results = results;
                    results.push(n);
                    let next = Evaluation { deps, radius, height, results };
                    proof {
                        assert(next.progress().results =~= self.progress().results.push(n@));
                    }
                    let call = next.pending_call();
                    Step::Continue(next, call)
                }
            },
        }
    }

    /// Takes the answer to the pending call and decides the next move.
    pub fn resume(self, outcome: CallResult) -> (step: Step)
        ensures
            self.takes(step, resume_model(self.progress(), outcome@)),
            forall|t: Seq<u8>|
                plain_decimal(t) && outcome@ == Answer::Answered(
                    STATUS_OK,
                    #[trigger] number_object(RESULT_FIELD@, t),
                ) ==> numeric_field_text(number_object(RESULT_FIELD@, t), RESULT_FIELD@) is Some,
    {
        let ghost answer = outcome@;
        let dependency = self.pending_dependency();
        match ask(outcome, dependency) {
            Err(reply) => Step::Finished(reply),
            Ok(body) => {
                let number = numeric_field(body.as_slice(), RESULT_FIELD);
                proof {
                    reveal_strlit("result");
                    assert(plain_key(RESULT_FIELD@));
                    assert forall|t: Seq<u8>|
                        plain_decimal(t) && answer == Answer::Answered(
                            STATUS_OK,
                            #[trigger] number_object(RESULT_FIELD@, t),
                        ) implies numeric_field_text(number_object(RESULT_FIELD@, t), RESULT_FIELD@)
                        is Some by {
                        assert(body@ == number_object(RESULT_FIELD@, t));
                    }
                }
                self.accept(number)
            },
        }
    }
}

/// The progress of an evaluation that has just begun.
pub open spec fn initial_progress(radius: Seq<u8>, height: Seq<u8>) -> Progress {
    Progress { radius, height, results: Seq::empty() }
}

/// The calls an evaluation at `progress` makes, in order, and its final reply, when its calls
/// come out as `answers` in turn; the reply is `None` where the answers run out first.
pub open spec fn drive(deps: Deps, progress: Progress, answers: Seq<Answer>) -> (
    Seq<(Dependency, Seq<char>, Seq<u8>)>,
    Option<(u16, Seq<u8>)>,
)
    decreases answers.len(),
{
    let call = planned_call(deps, progress);
    if answers.len() == 0 {
        (seq![call], None)
    } else {
        match resume_model(progress, answers[0]) {
            Advance::Finish(reply) => (seq![call], Some(reply)),
            Advance::Continue(next) => {
                let rest = drive(deps, next, answers.drop_first());
                (seq![call] + rest.0, rest.1)
            },
        }
    }
}

/// A whole evaluation of `POST /` with operands `radius` and `height`, its calls coming out as
/// `answers` in turn.
pub open spec fn run(deps: Deps, radius: Seq<u8>, height: Seq<u8>, answers: Seq<Answer>) -> (
    Seq<(Dependency, Seq<char>, Seq<u8>)>,
    Option<(u16, Seq<u8>)>,
) {
    drive(deps, initial_progress(radius, height), answers)
}

} // verus!
