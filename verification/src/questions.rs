//! The question bank, the launch of a round and the check of a player's answer.
use vstd::prelude::*;
use vstd::string::StringExecFns;

verus! {

/// A stored trivia question.
#[derive(Debug)]
pub struct MongoQuestion {
    pub text: String,
    pub options: Vec<String>,
    pub correct_option_index: i32,
    pub time_limit_sec: i32,
}

/// The characters of each string of a list.
pub open spec fn texts(v: Seq<String>) -> Seq<Seq<char>> {
    v.map_values(|s: String| s@)
}

impl MongoQuestion {
    /// The index of the right option points at one of the options.
    pub open spec fn has_valid_answer(self) -> bool {
        0 <= self.correct_option_index < self.options@.len()
    }

    /// The text of the right option.
    pub open spec fn correct_text(self) -> Seq<char> {
        self.options@[self.correct_option_index as int]@
    }
}

/// Copies a list of strings.
pub fn copy_texts(v: &Vec<String>) -> (r: Vec<String>)
    ensures
        texts(r@) == texts(v@),
{
    let mut r: Vec<String> = Vec::new();
    let mut i: usize = 0;
    while i < v.len()
        invariant
            i <= v@.len(),
            r@.len() == i,
            forall|k: int| 0 <= k < i ==> #[trigger] r@[k]@ == v@[k]@,
        decreases v@.len() - i,
    {
        r.push(v[i].clone());
        i = i + 1;
    }
    assert(texts(r@) =~= texts(v@));
    r
}

/// The text of seed question `i`.
pub open spec fn seed_text(i: int) -> Seq<char> {
    if i == 0 {
        "¿Cuál es el patrón de diseño para revertir transacciones en microservicios?"@
    } else if i == 1 {
        "¿Qué puerto usa Redis por defecto en Docker?"@
    } else if i == 2 {
        "¿Qué significa gRPC?"@
    } else if i == 3 {
        "¿Cuál de estos NO es un método HTTP válido?"@
    } else if i == 4 {
        "¿En qué lenguaje de programación está escrito Docker nativamente?"@
    } else if i == 5 {
        "¿Cuál es la base de datos documental más popular?"@
    } else if i == 6 {
        "¿Qué protocolo de red usa gRPC por debajo?"@
    } else if i == 7 {
        "¿Qué estructura de datos es ideal para un Leaderboard en Redis?"@
    } else if i == 8 {
        "¿Qué comando levanta contenedores ocultos (background) en Compose?"@
    } else {
        "¿Cómo se define un contrato de red en un archivo .proto?"@
    }
}

/// The options of seed question `i`.
pub open spec fn seed_options(i: int) -> Seq<Seq<char>> {
    if i == 0 {
        seq!["CQRS"@, "Saga"@, "Event Sourcing"@, "Circuit Breaker"@]
    } else if i == 1 {
        seq!["5432"@, "27017"@, "6379"@, "8080"@]
    } else if i == 2 {
        seq!["General RPC"@, "Google RPC"@, "gRPC Remote Procedure Call"@, "Graph RPC"@]
    } else if i == 3 {
        seq!["GET"@, "POST"@, "FETCH"@, "DELETE"@]
    } else if i == 4 {
        seq!["Python"@, "C++"@, "Go"@, "Rust"@]
    } else if i == 5 {
        seq!["PostgreSQL"@, "MongoDB"@, "Redis"@, "Cassandra"@]
    } else if i == 6 {
        seq!["HTTP/1.1"@, "HTTP/2"@, "TCP Directo"@, "UDP"@]
    } else if i == 7 {
        seq!["Hashes"@, "Lists"@, "Sorted Sets"@, "Strings"@]
    } else if i == 8 {
        seq!["docker-compose start"@, "docker-compose up -d"@, "docker run -b"@, "docker background"@]
    } else {
        seq!["service { ... }"@, "class { ... }"@, "interface { ... }"@, "rpc { ... }"@]
    }
}

/// The index of the right option of seed question `i`.
pub open spec fn seed_correct_index(i: int) -> int {
    if i == 0 {
        1
    } else if i == 1 {
        2
    } else if i == 2 {
        2
    } else if i == 3 {
        2
    } else if i == 4 {
        2
    } else if i == 5 {
        1
    } else if i == 6 {
        1
    } else if i == 7 {
        2
    } else if i == 8 {
        1
    } else {
        0
    }
}

/// How many questions the bank is seeded with.
pub const SEED_SIZE: usize = 10;

/// `q` is seed question `i` of the bank.
pub open spec fn is_seed_question(q: MongoQuestion, i: int) -> bool {
    &&& q.text@ == seed_text(i)
    &&& texts(q.options@) == seed_options(i)
    &&& q.correct_option_index == seed_correct_index(i)
    &&& q.time_limit_sec == 20
}

fn seed_question(text: &str, o0: &str, o1: &str, o2: &str, o3: &str, correct: i32) -> (q: MongoQuestion)
    ensures
        q.text@ == text@,
        texts(q.options@) == seq![o0@, o1@, o2@, o3@],
        q.correct_option_index == correct,
        q.time_limit_sec == 20,
{
    let mut options: Vec<String> = Vec::new();
    options.push(String::from_str(o0));
    options.push(String::from_str(o1));
    options.push(String::from_str(o2));
    options.push(String::from_str(o3));
    assert(texts(options@) =~= seq![o0@, o1@, o2@, o3@]);
    MongoQuestion { text: String::from_str(text), options, correct_option_index: correct, time_limit_sec: 20 }
}

/// The ten questions the question store is filled with at start-up.
pub fn seed_questions() -> (bank: Vec<MongoQuestion>)
    ensures
        bank@.len() == SEED_SIZE,
        forall|i: int| 0 <= i < SEED_SIZE ==> is_seed_question(#[trigger] bank@[i], i),
{
    let mut bank: Vec<MongoQuestion> = Vec::new();
    bank.push(seed_question("¿Cuál es el patrón de diseño para revertir transacciones en microservicios?", "CQRS", "Saga", "Event Sourcing", "Circuit Breaker", 1));
    bank.push(seed_question("¿Qué puerto usa Redis por defecto en Docker?", "5432", "27017", "6379", "8080", 2));
    bank.push(seed_question("¿Qué significa gRPC?", "General RPC", "Google RPC", "gRPC Remote Procedure Call", "Graph RPC", 2));
    bank.push(seed_question("¿Cuál de estos NO es un método HTTP válido?", "GET", "POST", "FETCH", "DELETE", 2));
    bank.push(seed_question("¿En qué lenguaje de programación está escrito Docker nativamente?", "Python", "C++", "Go", "Rust", 2));
    bank.push(seed_question("¿Cuál es la base de datos documental más popular?", "PostgreSQL", "MongoDB", "Redis", "Cassandra", 1));
    bank.push(seed_question("¿Qué protocolo de red usa gRPC por debajo?", "HTTP/1.1", "HTTP/2", "TCP Directo", "UDP", 1));
    bank.push(seed_question("¿Qué estructura de datos es ideal para un Leaderboard en Redis?", "Hashes", "Lists", "Sorted Sets", "Strings", 2));
    bank.push(seed_question("¿Qué comando levanta contenedores ocultos (background) en Compose?", "docker-compose start", "docker-compose up -d", "docker run -b", "docker background", 1));
    bank.push(seed_question("¿Cómo se define un contrato de red en un archivo .proto?", "service { ... }", "class { ... }", "interface { ... }", "rpc { ... }", 0));
    bank
}

proof fn lemma_seed_shape(i: int)
    requires
        0 <= i < SEED_SIZE,
    ensures
        seed_options(i).len() == 4,
        0 <= seed_correct_index(i) < 4,
{
}

/// Two banks that both meet the contract of `seed_questions` hold the same
/// questions: seeding twice leaves the same ten questions.
pub proof fn lemma_seed_bank_is_fixed(first: Seq<MongoQuestion>, second: Seq<MongoQuestion>)
    requires
        first.len() == SEED_SIZE,
        second.len() == SEED_SIZE,
        forall|i: int| 0 <= i < SEED_SIZE ==> is_seed_question(#[trigger] first[i], i),
        forall|i: int| 0 <= i < SEED_SIZE ==> is_seed_question(#[trigger] second[i], i),
    ensures
        forall|i: int| 0 <= i < SEED_SIZE ==> {
            &&& (#[trigger] first[i]).text@ == second[i].text@
            &&& texts(first[i].options@) == texts(second[i].options@)
            &&& first[i].correct_option_index == second[i].correct_option_index
            &&& first[i].time_limit_sec == second[i].time_limit_sec
        },
{
    assert forall|i: int| 0 <= i < SEED_SIZE implies {
        &&& (#[trigger] first[i]).text@ == second[i].text@
        &&& texts(first[i].options@) == texts(second[i].options@)
        &&& first[i].correct_option_index == second[i].correct_option_index
        &&& first[i].time_limit_sec == second[i].time_limit_sec
    } by {
        assert(is_seed_question(first[i], i));
        assert(is_seed_question(second[i], i));
    }
}

/// A question that can be asked: four options, the right one among them, and
/// twenty seconds to answer.
pub open spec fn is_playable(q: MongoQuestion) -> bool {
    &&& q.has_valid_answer()
    &&& q.options@.len() == 4
    &&& q.time_limit_sec == 20
}

/// Every seed question is playable.
pub proof fn lemma_seed_questions_playable(bank: Seq<MongoQuestion>)
    requires
        bank.len() == SEED_SIZE,
        forall|i: int| 0 <= i < SEED_SIZE ==> is_seed_question(#[trigger] bank[i], i),
    ensures
        forall|i: int| 0 <= i < SEED_SIZE ==> is_playable(#[trigger] bank[i]),
{
    assert forall|i: int| 0 <= i < SEED_SIZE implies is_playable(#[trigger] bank[i]) by {
        assert(is_seed_question(bank[i], i));
        lemma_seed_shape(i);
        assert(texts(bank[i].options@).len() == bank[i].options@.len());
    }
}

/// The right answer of seed question `i`.
pub open spec fn seed_right_answer(i: int) -> Seq<char> {
    seed_options(i)[seed_correct_index(i)]
}

/// The answer is the right answer of one of the questions of the bank.
pub open spec fn is_bank_right_answer(answer: Seq<char>) -> bool {
    exists|i: int| 0 <= i < SEED_SIZE && answer == #[trigger] seed_right_answer(i)
}

/// An answer counts as right when it is exactly the right option of the
/// question it is checked against, or exactly the right answer of one of the
/// questions of the bank (any of them may be on screen).
pub open spec fn answer_accepted(answer: Seq<char>, question: MongoQuestion) -> bool {
    answer == question.correct_text() || is_bank_right_answer(answer)
}

/// Decides whether a player's answer to `question` counts as right.
pub fn is_answer_accepted(answer: &str, question: &MongoQuestion) -> (r: bool)
    requires
        question.has_valid_answer(),
    ensures
        r == answer_accepted(answer@, *question),
{
    let given = String::from_str(answer);
    let idx = question.correct_option_index as usize;
    if question.options[idx].eq(&given) {
        return true;
    }
    let bank = seed_questions();
    let mut i: usize = 0;
    while i < bank.len()
        invariant
            bank@.len() == SEED_SIZE,
            forall|k: int| 0 <= k < SEED_SIZE ==> is_seed_question(#[trigger] bank@[k], k),
            given@ == answer@,
            answer@ != question.correct_text(),
            i <= SEED_SIZE,
            forall|k: int| 0 <= k < i ==> answer@ != #[trigger] seed_right_answer(k),
        decreases SEED_SIZE - i,
    {
        let q = &bank[i];
        proof {
            assert(is_seed_question(bank@[i as int], i as int));
            lemma_seed_shape(i as int);
            assert(texts(q.options@).len() == q.options@.len());
            assert(texts(q.options@)[q.correct_option_index as int] == q.options@[q.correct_option_index as int]@);
        }
        let right = &q.options[q.correct_option_index as usize];
        assert(right@ == seed_right_answer(i as int));
        if right.eq(&given) {
            assert(answer@ == seed_right_answer(i as int));
            return true;
        }
        i = i + 1;
    }
    false
}

/// The right option of a question is always accepted.
pub proof fn lemma_correct_option_accepted(question: MongoQuestion)
    requires
        question.has_valid_answer(),
    ensures
        answer_accepted(question.correct_text(), question),
{
}

/// The right answers of the seeded bank, question by question: Saga, 6379,
/// gRPC Remote Procedure Call, FETCH, Go, MongoDB, HTTP/2, Sorted Sets,
/// docker-compose up -d, service { ... }.
pub proof fn lemma_seed_right_answers(bank: Seq<MongoQuestion>)
    requires
        bank.len() == SEED_SIZE,
        forall|i: int| 0 <= i < SEED_SIZE ==> is_seed_question(#[trigger] bank[i], i),
    ensures
        bank[0].correct_text() == "Saga"@,
        bank[1].correct_text() == "6379"@,
        bank[2].correct_text() == "gRPC Remote Procedure Call"@,
        bank[3].correct_text() == "FETCH"@,
        bank[4].text@ == "¿En qué lenguaje de programación está escrito Docker nativamente?"@,
        bank[4].correct_text() == "Go"@,
        bank[5].correct_text() == "MongoDB"@,
        bank[6].correct_text() == "HTTP/2"@,
        bank[7].correct_text() == "Sorted Sets"@,
        bank[8].correct_text() == "docker-compose up -d"@,
        bank[9].correct_text() == "service { ... }"@,
{
    assert forall|i: int| 0 <= i < SEED_SIZE implies #[trigger] bank[i].correct_text() == seed_right_answer(i) by {
        assert(is_seed_question(bank[i], i));
        lemma_seed_shape(i);
        let q = bank[i];
        assert(texts(q.options@).len() == q.options@.len());
        assert(texts(q.options@)[q.correct_option_index as int] == q.options@[q.correct_option_index as int]@);
    }
    assert(bank[0].correct_text() == seed_right_answer(0));
    assert(bank[1].correct_text() == seed_right_answer(1));
    assert(bank[2].correct_text() == seed_right_answer(2));
    assert(bank[3].correct_text() == seed_right_answer(3));
    assert(bank[4].correct_text() == seed_right_answer(4));
    assert(is_seed_question(bank[4], 4));
    assert(bank[5].correct_text() == seed_right_answer(5));
    assert(bank[6].correct_text() == seed_right_answer(6));
    assert(bank[7].correct_text() == seed_right_answer(7));
    assert(bank[8].correct_text() == seed_right_answer(8));
    assert(bank[9].correct_text() == seed_right_answer(9));
}

/// The right answer of every question of the seeded bank is accepted,
/// whatever question the answer is checked against.
pub proof fn lemma_bank_right_answers_accepted(bank: Seq<MongoQuestion>, question: MongoQuestion)
    requires
        bank.len() == SEED_SIZE,
        forall|i: int| 0 <= i < SEED_SIZE ==> is_seed_question(#[trigger] bank[i], i),
    ensures
        forall|i: int| 0 <= i < SEED_SIZE ==> answer_accepted(#[trigger] bank[i].correct_text(), question),
{
    assert forall|i: int| 0 <= i < SEED_SIZE implies answer_accepted(#[trigger] bank[i].correct_text(), question) by {
        assert(is_seed_question(bank[i], i));
        lemma_seed_shape(i);
        let q = bank[i];
        assert(texts(q.options@).len() == q.options@.len());
        assert(texts(q.options@)[q.correct_option_index as int] == q.options@[q.correct_option_index as int]@);
        assert(bank[i].correct_text() == seed_right_answer(i));
    }
}

} // verus!
