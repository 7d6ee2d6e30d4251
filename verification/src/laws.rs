use vstd::prelude::*;

use crate::dependency::{Dependency, Deps};
use crate::evaluate::{
    ask_model, drive, initial_progress, numeric_field_text, RESULT_FIELD, planned_dependency,
    resume_model, run, Advance, Answer, Progress,
};
use crate::json::{ascii, lemma_utf8_of_ascii, pair_json, utf8};
use crate::identity::depends_on_spec;
use crate::openapi::evaluate_responses_spec;
use crate::reply::{
    degraded_reply, volume_json,
    malformed_reply, ok_reply, STATUS_INTERNAL_ERROR, STATUS_OK, STATUS_UNAVAILABLE,
    STATUS_UNPROCESSABLE,
};

verus! {

/// The answers of five primitives that each answered `200` with one of `bodies`.
pub open spec fn answered_ok(bodies: Seq<Seq<u8>>) -> Seq<Answer> {
    bodies.map_values(|b: Seq<u8>| Answer::Answered(STATUS_OK, b))
}

/// When every primitive answers `200` with a numeric `result`, the evaluation asks `pi` with an
/// empty body, then `r2 = radius * radius`, `base = p * r2`, `col = base * height` and
/// `col / 3`, each at its configured endpoint, and replies `200` with the operands as given and
/// the last number: `V = (1/3) * pi * r^2 * height`.
pub proof fn lemma_composition(
    deps: Deps,
    radius: Seq<u8>,
    height: Seq<u8>,
    bodies: Seq<Seq<u8>>,
    numbers: Seq<Seq<u8>>,
)
    requires
        bodies.len() == 5,
        numbers.len() == 5,
        forall|i: int| 0 <= i < 5 ==> numeric_field_text(#[trigger] bodies[i], RESULT_FIELD@) == Some(numbers[i]),
    ensures
        run(deps, radius, height, answered_ok(bodies)).0 == seq![
            (Dependency::Pi, deps.url_of(Dependency::Pi), utf8("{}")),
            (Dependency::FloatMultiply, deps.url_of(Dependency::FloatMultiply), pair_json(radius, radius)),
            (Dependency::FloatMultiply, deps.url_of(Dependency::FloatMultiply), pair_json(numbers[0], numbers[1])),
            (Dependency::FloatMultiply, deps.url_of(Dependency::FloatMultiply), pair_json(numbers[2], height)),
            (Dependency::FloatDivide, deps.url_of(Dependency::FloatDivide), pair_json(numbers[3], utf8("3"))),
        ],
        run(deps, radius, height, answered_ok(bodies)).1 == Some(ok_reply(radius, height, numbers[4])),
{
    let a = answered_ok(bodies);
    let p0 = initial_progress(radius, height);
    let p1 = Progress { results: seq![numbers[0]], ..p0 };
    let p2 = Progress { results: seq![numbers[0], numbers[1]], ..p0 };
    let p3 = Progress { results: seq![numbers[0], numbers[1], numbers[2]], ..p0 };
    let p4 = Progress { results: seq![numbers[0], numbers[1], numbers[2], numbers[3]], ..p0 };
    assert(resume_model(p0, a[0]) == Advance::Continue(p1)) by {
        assert(p0.results.push(numbers[0]) =~= p1.results);
    }
    assert(resume_model(p1, a[1]) == Advance::Continue(p2)) by {
        assert(p1.results.push(numbers[1]) =~= p2.results);
    }
    assert(resume_model(p2, a[2]) == Advance::Continue(p3)) by {
        assert(p2.results.push(numbers[2]) =~= p3.results);
    }
    assert(resume_model(p3, a[3]) == Advance::Continue(p4)) by {
        assert(p3.results.push(numbers[3]) =~= p4.results);
    }
    assert(resume_model(p4, a[4]) == Advance::Finish(ok_reply(radius, height, numbers[4])));
    let a1 = a.drop_first();
    let a2 = a1.drop_first();
    let a3 = a2.drop_first();
    let a4 = a3.drop_first();
    assert(a1[0] == a[1] && a2[0] == a[2] && a3[0] == a[3] && a4[0] == a[4]);
    assert(a4.drop_first().len() == 0);
    // unfold the run one call at a time, from the division back to `pi`
    assert(drive(deps, p4, a4).1 == Some(ok_reply(radius, height, numbers[4])));
    assert(drive(deps, p3, a3).1 == drive(deps, p4, a4).1);
    assert(drive(deps, p2, a2).1 == drive(deps, p3, a3).1);
    assert(drive(deps, p1, a1).1 == drive(deps, p2, a2).1);
    assert(drive(deps, p0, a).1 == drive(deps, p1, a1).1);
    assert(drive(deps, p0, a).0 =~= seq![
        (Dependency::Pi, deps.url_of(Dependency::Pi), utf8("{}")),
        (Dependency::FloatMultiply, deps.url_of(Dependency::FloatMultiply), pair_json(radius, radius)),
        (Dependency::FloatMultiply, deps.url_of(Dependency::FloatMultiply), pair_json(numbers[0], numbers[1])),
        (Dependency::FloatMultiply, deps.url_of(Dependency::FloatMultiply), pair_json(numbers[2], height)),
        (Dependency::FloatDivide, deps.url_of(Dependency::FloatDivide), pair_json(numbers[3], utf8("3"))),
    ]);
}

/// Whether an answer gives the evaluation a number: `200` with a numeric `result`.
pub open spec fn gives_number(answer: Answer) -> bool {
    &&& answer matches Answer::Answered(status, body)
    &&& status == STATUS_OK
    &&& numeric_field_text(body, RESULT_FIELD@) is Some
}

/// The reply that an answer giving no number leads to, for a call to `dependency`.
pub open spec fn failure_reply(answer: Answer, dependency: Dependency) -> (u16, Seq<u8>) {
    match ask_model(answer, dependency) {
        Err(reply) => reply,
        Ok(_) => malformed_reply(dependency),
    }
}

proof fn lemma_drive_stops(deps: Deps, p: Progress, answers: Seq<Answer>, k: nat)
    requires
        p.results.len() + k < 5,
        k < answers.len(),
        forall|i: int| 0 <= i < k ==> gives_number(#[trigger] answers[i]),
        !gives_number(answers[k as int]),
    ensures
        drive(deps, p, answers).0.len() == k + 1,
        drive(deps, p, answers).1 == Some(
            failure_reply(answers[k as int], planned_dependency(p.results.len() + k)),
        ),
    decreases k,
{
    if k > 0 {
        assert(gives_number(answers[0]));
        let body = answers[0]->Answered_1;
        let n = numeric_field_text(body, RESULT_FIELD@)->0;
        let next = Progress { results: p.results.push(n), ..p };
        assert(resume_model(p, answers[0]) == Advance::Continue(next));
        let rest = answers.drop_first();
        assert forall|i: int| 0 <= i < k - 1 implies gives_number(#[trigger] rest[i]) by {
            assert(rest[i] == answers[i + 1]);
        }
        assert(rest[k - 1] == answers[k as int]);
        lemma_drive_stops(deps, next, rest, (k - 1) as nat);
    }
}

/// The first call that gives no number decides the reply, and no call follows it: where the
/// first `k` calls each give a number and call `k` does not, the evaluation makes `k + 1`
/// calls and replies as that failure calls for (`503` naming the dependency where it is
/// unreachable or answers neither `200` nor `422`, its own answer where it answers `422`,
/// `500` naming it where its `200` holds no number).
pub proof fn lemma_first_failure_decides(
    deps: Deps,
    radius: Seq<u8>,
    height: Seq<u8>,
    answers: Seq<Answer>,
    k: nat,
)
    requires
        k < 5,
        k < answers.len(),
        forall|i: int| 0 <= i < k ==> gives_number(#[trigger] answers[i]),
        !gives_number(answers[k as int]),
    ensures
        run(deps, radius, height, answers).0.len() == k + 1,
        run(deps, radius, height, answers).1 == Some(
            failure_reply(answers[k as int], planned_dependency(k)),
        ),
{
    lemma_drive_stops(deps, initial_progress(radius, height), answers, k);
}

proof fn lemma_drive_bounded(deps: Deps, p: Progress, answers: Seq<Answer>)
    requires
        p.results.len() < 5,
    ensures
        drive(deps, p, answers).0.len() <= 5 - p.results.len(),
        answers.len() >= 5 - p.results.len() ==> drive(deps, p, answers).1 is Some,
        drive(deps, p, answers).1 matches Some(reply) ==> {
            ||| reply.0 == STATUS_OK
            ||| reply.0 == STATUS_UNPROCESSABLE
            ||| reply.0 == STATUS_INTERNAL_ERROR
            ||| reply.0 == STATUS_UNAVAILABLE
        },
    decreases answers.len(),
{
    if answers.len() > 0 {
        match resume_model(p, answers[0]) {
            Advance::Finish(_) => {},
            Advance::Continue(next) => {
                lemma_drive_bounded(deps, next, answers.drop_first());
            },
        }
    }
}

/// Every evaluation ends after at most five calls (`pi`, three multiplications, one
/// division), and five answers always bring it to a reply.
pub proof fn lemma_at_most_five_calls(
    deps: Deps,
    radius: Seq<u8>,
    height: Seq<u8>,
    answers: Seq<Answer>,
)
    ensures
        run(deps, radius, height, answers).0.len() <= 5,
        answers.len() >= 5 ==> run(deps, radius, height, answers).1 is Some,
{
    lemma_drive_bounded(deps, initial_progress(radius, height), answers);
}

/// Every reply of `POST /` carries a status that its OpenAPI document lists: `200`, `422`,
/// `500` or `503`.
pub proof fn lemma_replies_are_documented(
    deps: Deps,
    radius: Seq<u8>,
    height: Seq<u8>,
    answers: Seq<Answer>,
)
    ensures
        run(deps, radius, height, answers).1 matches Some(reply) ==> exists|i: int|
            0 <= i < evaluate_responses_spec().len() && #[trigger] evaluate_responses_spec()[i].status
                == reply.0,
{
    lemma_drive_bounded(deps, initial_progress(radius, height), answers);
    let docs = evaluate_responses_spec();
    assert(docs[0].status == STATUS_OK);
    assert(docs[1].status == STATUS_UNPROCESSABLE);
    assert(docs[2].status == STATUS_INTERNAL_ERROR);
    assert(docs[3].status == STATUS_UNAVAILABLE);
}

/// The service never rejects an operand itself: it answers `422` exactly when the pending
/// dependency answered `422`, and then with that dependency's body, verbatim.
pub proof fn lemma_unprocessable_is_forwarded(progress: Progress, answer: Answer)
    ensures
        (resume_model(progress, answer) matches Advance::Finish(reply) && reply.0
            == STATUS_UNPROCESSABLE) <==> (answer matches Answer::Answered(status, _) && status
            == STATUS_UNPROCESSABLE),
        match answer {
            Answer::Answered(status, body) => status == STATUS_UNPROCESSABLE ==> resume_model(
                progress,
                answer,
            ) == Advance::Finish((STATUS_UNPROCESSABLE, body)),
            Answer::Unreachable => true,
        },
{
}

/// The dependencies that `GET /` lists are those an evaluation calls, in the order of their
/// first calls, and it calls no other.
pub proof fn lemma_depends_on_lists_calls(stage: nat)
    requires
        stage < 5,
    ensures
        depends_on_spec().contains(planned_dependency(stage).spec_name()),
        depends_on_spec() == seq![
            planned_dependency(0).spec_name(),
            planned_dependency(1).spec_name(),
            planned_dependency(4).spec_name(),
        ],
{
    let names = depends_on_spec();
    assert(names[0] == Dependency::Pi.spec_name());
    assert(names[1] == Dependency::FloatMultiply.spec_name());
    assert(names[2] == Dependency::FloatDivide.spec_name());
    assert(names =~= seq![
        planned_dependency(0).spec_name(),
        planned_dependency(1).spec_name(),
        planned_dependency(4).spec_name(),
    ]);
}

/// A primitive receives its operands exactly as they were given: the request body is the JSON
/// object `{"a":A,"b":B}` with the texts of `a` and `b` byte for byte, each found again
/// unchanged at its place in the body.
pub proof fn lemma_operands_sent_verbatim(a: Seq<u8>, b: Seq<u8>)
    ensures
        pair_json(a, b) == ascii("{\"a\":"@) + a + ascii(",\"b\":"@) + b + ascii("}"@),
        pair_json(a, b).len() == a.len() + b.len() + 11,
        pair_json(a, b).subrange(5, 5 + a.len() as int) == a,
        pair_json(a, b).subrange(10 + a.len() as int, 10 + a.len() + b.len() as int) == b,
{
    reveal_strlit("{\"a\":");
    reveal_strlit(",\"b\":");
    reveal_strlit("}");
    lemma_utf8_of_ascii("{\"a\":");
    lemma_utf8_of_ascii(",\"b\":");
    lemma_utf8_of_ascii("}");
    let body = pair_json(a, b);
    assert(ascii("{\"a\":"@).len() == 5);
    assert(ascii(",\"b\":"@).len() == 5);
    assert(ascii("}"@).len() == 1);
    assert(body.subrange(5, 5 + a.len() as int) =~= a);
    assert(body.subrange(10 + a.len() as int, 10 + a.len() + b.len() as int) =~= b);
}

/// The `200` body echoes the operands as they were given and carries the volume, byte for
/// byte: `{"height":H,"radius":R,"result":X}`, each text found again unchanged at its place.
pub proof fn lemma_volume_echoes_operands(radius: Seq<u8>, height: Seq<u8>, result: Seq<u8>)
    ensures
        volume_json(radius, height, result) == ascii("{\"height\":"@) + height + ascii(
            ",\"radius\":"@,
        ) + radius + ascii(",\"result\":"@) + result + ascii("}"@),
        ok_reply(radius, height, result) == (STATUS_OK, volume_json(radius, height, result)),
        volume_json(radius, height, result).len() == height.len() + radius.len() + result.len() + 31,
        volume_json(radius, height, result).subrange(10, 10 + height.len() as int) == height,
        volume_json(radius, height, result).subrange(
            20 + height.len() as int,
            20 + height.len() + radius.len() as int,
        ) == radius,
        volume_json(radius, height, result).subrange(
            30 + height.len() + radius.len() as int,
            30 + height.len() + radius.len() + result.len() as int,
        ) == result,
{
    reveal_strlit("{\"height\":");
    reveal_strlit(",\"radius\":");
    reveal_strlit(",\"result\":");
    reveal_strlit("}");
    lemma_utf8_of_ascii("{\"height\":");
    lemma_utf8_of_ascii(",\"radius\":");
    lemma_utf8_of_ascii(",\"result\":");
    lemma_utf8_of_ascii("}");
    let body = volume_json(radius, height, result);
    assert(ascii("{\"height\":"@).len() == 10);
    assert(ascii(",\"radius\":"@).len() == 10);
    assert(ascii(",\"result\":"@).len() == 10);
    assert(ascii("}"@).len() == 1);
    assert(body.subrange(10, 10 + height.len() as int) =~= height);
    assert(body.subrange(20 + height.len() as int, 20 + height.len() + radius.len() as int)
        =~= radius);
    assert(body.subrange(
        30 + height.len() + radius.len() as int,
        30 + height.len() + radius.len() + result.len() as int,
    ) =~= result);
}

/// The UTF-8 bytes of a dependency's name are its ASCII codes.
proof fn lemma_name_is_ascii(dependency: Dependency)
    ensures
        dependency.name_bytes() == ascii(dependency.spec_name()),
{
    reveal_strlit("srvcs-pi");
    reveal_strlit("srvcs-floatmultiply");
    reveal_strlit("srvcs-floatdivide");
    lemma_utf8_of_ascii("srvcs-pi");
    lemma_utf8_of_ascii("srvcs-floatmultiply");
    lemma_utf8_of_ascii("srvcs-floatdivide");
}

/// The `503` reply for a dependency: status `503` and the body
/// `{"dependency":"NAME","error":"dependency unavailable"}` naming it.
pub open spec fn unavailable(dependency: Dependency) -> (u16, Seq<u8>) {
    (
        503,
        ascii("{\"dependency\":\""@) + ascii(dependency.spec_name()) + ascii(
            "\",\"error\":\"dependency unavailable\"}"@,
        ),
    )
}

/// A dependency that answers with any status other than `200` and `422` is treated exactly as
/// one that cannot be reached, whichever dependency it is: the reply is `503`, naming it.
pub proof fn lemma_failing_status_is_unavailable(
    dependency: Dependency,
    status: u16,
    body: Seq<u8>,
)
    requires
        status != 200,
        status != 422,
    ensures
        ask_model(Answer::Answered(status, body), dependency) == ask_model(
            Answer::Unreachable,
            dependency,
        ),
        ask_model(Answer::Unreachable, dependency) is Err,
        ask_model(Answer::Unreachable, dependency)->Err_0 == unavailable(dependency),
{
    lemma_name_is_ascii(dependency);
    reveal_strlit("{\"dependency\":\"");
    reveal_strlit("\",\"error\":\"");
    reveal_strlit("dependency unavailable");
    reveal_strlit("\"}");
    lemma_utf8_of_ascii("{\"dependency\":\"");
    lemma_utf8_of_ascii("\",\"error\":\"");
    lemma_utf8_of_ascii("dependency unavailable");
    lemma_utf8_of_ascii("\"}");
    reveal_strlit("\",\"error\":\"dependency unavailable\"}");
    assert(ascii("\",\"error\":\""@) + ascii("dependency unavailable"@) + ascii("\"}"@)
        =~= ascii("\",\"error\":\"dependency unavailable\"}"@));
    assert(degraded_reply(dependency).1 =~= unavailable(dependency).1);
}

/// `500` is answered exactly when the pending dependency answered `200` and its `result` held
/// no number; the reply then names that dependency.
pub proof fn lemma_malformed_only_without_number(progress: Progress, answer: Answer)
    ensures
        (resume_model(progress, answer) matches Advance::Finish(reply) && reply.0
            == STATUS_INTERNAL_ERROR) <==> (answer matches Answer::Answered(status, body) && status
            == STATUS_OK && numeric_field_text(body, RESULT_FIELD@) is None),
        (answer matches Answer::Answered(status, body) && status == STATUS_OK && numeric_field_text(
            body,
            RESULT_FIELD@,
        ) is None) ==> resume_model(progress, answer) == Advance::Finish(
            malformed_reply(planned_dependency(progress.results.len())),
        ),
{
}

/// A `200` whose `result` holds a number is taken as it is: before the division the evaluation
/// moves on with that number appended, and after it the volume is that number.
pub proof fn lemma_number_is_taken(progress: Progress, body: Seq<u8>, number: Seq<u8>)
    requires
        progress.results.len() < 5,
        numeric_field_text(body, RESULT_FIELD@) == Some(number),
    ensures
        progress.results.len() < 4 ==> resume_model(progress, Answer::Answered(STATUS_OK, body))
            == Advance::Continue(Progress { results: progress.results.push(number), ..progress }),
        progress.results.len() == 4 ==> resume_model(progress, Answer::Answered(STATUS_OK, body))
            == Advance::Finish(ok_reply(progress.radius, progress.height, number)),
{
}

} // verus!
