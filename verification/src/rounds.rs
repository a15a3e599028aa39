//! The launch of a round: every stored question, numbered, then the
//! end-of-game screen. The engine sends each payload to every player and waits
//! the question's time before the next one.
use vstd::prelude::*;
use vstd::string::StringExecFns;
use crate::messages::QuestionPayload;
use crate::questions::{copy_texts, texts, MongoQuestion};
use crate::text::{decimal, decimal_string};

verus! {

/// Seconds every launched question stays on screen.
pub const QUESTION_TIME_SEC: i32 = 20;

/// The text shown for question `i` (counted from 0): `Pregunta {i + 1}: {text}`.
pub open spec fn numbered_text(i: int, text: Seq<char>) -> Seq<char> {
    "Pregunta "@ + decimal((i + 1) as nat) + ": "@ + text
}

/// The text of the end-of-game screen.
pub open spec fn end_of_game_text() -> Seq<char> {
    "🏁 ¡Juego Terminado! Esperando guardado en DB..."@
}

/// `p` shows question `q` as the `i`-th of the round.
pub open spec fn is_round_payload(p: QuestionPayload, i: int, q: MongoQuestion) -> bool {
    &&& p.text@ == numbered_text(i, q.text@)
    &&& texts(p.options@) == texts(q.options@)
    &&& p.time_limit_sec == QUESTION_TIME_SEC
}

/// `p` is the end-of-game screen: no options, no time.
pub open spec fn is_end_of_game(p: QuestionPayload) -> bool {
    &&& p.text@ == end_of_game_text()
    &&& p.options@.len() == 0
    &&& p.time_limit_sec == 0
}

/// The payloads of a round over `questions`, in order, then the end screen.
pub open spec fn is_round(payloads: Seq<QuestionPayload>, questions: Seq<MongoQuestion>) -> bool {
    &&& payloads.len() == questions.len() + 1
    &&& forall|i: int| 0 <= i < questions.len() ==> #[trigger] is_round_payload(payloads[i], i, questions[i])
    &&& is_end_of_game(payloads[questions.len() as int])
}

/// The payload of question `q`, shown as the `index`-th (from 0) of the round.
pub fn round_payload(index: usize, q: &MongoQuestion) -> (p: QuestionPayload)
    requires
        index < usize::MAX,
    ensures
        is_round_payload(p, index as int, *q),
{
    let mut text = String::from_str("Pregunta ");
    let number = decimal_string(index as u64 + 1);
    text.append(number.as_str());
    text.append(": ");
    text.append(q.text.as_str());
    QuestionPayload { text, options: copy_texts(&q.options), time_limit_sec: QUESTION_TIME_SEC }
}

/// The end-of-game screen.
pub fn end_of_game() -> (p: QuestionPayload)
    ensures
        is_end_of_game(p),
{
    QuestionPayload {
        text: String::from_str("🏁 ¡Juego Terminado! Esperando guardado en DB..."),
        options: Vec::new(),
        time_limit_sec: 0,
    }
}

/// Plans a round over the stored questions: nothing when there is none (the
/// moderator is told the launch failed), else one payload per question and
/// the end screen.
pub fn round_payloads(questions: &Vec<MongoQuestion>) -> (r: Option<Vec<QuestionPayload>>)
    ensures
        r is None <==> questions@.len() == 0,
        r matches Some(payloads) ==> is_round(payloads@, questions@),
{
    if questions.len() == 0 {
        return None;
    }
    let mut payloads: Vec<QuestionPayload> = Vec::new();
    let mut i: usize = 0;
    while i < questions.len()
        invariant
            i <= questions@.len(),
            payloads@.len() == i,
            forall|k: int| 0 <= k < i ==> #[trigger] is_round_payload(payloads@[k], k, questions@[k]),
        decreases questions@.len() - i,
    {
        let p = round_payload(i, &questions[i]);
        payloads.push(p);
        i = i + 1;
    }
    payloads.push(end_of_game());
    Some(payloads)
}

} // verus!
