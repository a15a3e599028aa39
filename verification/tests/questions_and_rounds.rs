use trivia_arena::messages::QuestionPayload;
use trivia_arena::questions::{is_answer_accepted, seed_questions, MongoQuestion, SEED_SIZE};
use trivia_arena::rounds::{end_of_game, round_payload, round_payloads, QUESTION_TIME_SEC};

fn question(text: &str, options: &[&str], correct: i32) -> MongoQuestion {
    MongoQuestion {
        text: text.to_string(),
        options: options.iter().map(|o| o.to_string()).collect(),
        correct_option_index: correct,
        time_limit_sec: 20,
    }
}

#[test]
fn seed_bank_has_ten_playable_questions() {
    let bank = seed_questions();
    assert_eq!(bank.len(), 10);
    assert_eq!(SEED_SIZE, 10);
    for q in &bank {
        assert_eq!(q.options.len(), 4);
        assert!(q.correct_option_index >= 0 && (q.correct_option_index as usize) < q.options.len());
        assert_eq!(q.time_limit_sec, 20);
    }
    assert_eq!(bank[0].text, "¿Cuál es el patrón de diseño para revertir transacciones en microservicios?");
    assert_eq!(bank[0].options, vec!["CQRS", "Saga", "Event Sourcing", "Circuit Breaker"]);
    assert_eq!(bank[0].correct_option_index, 1);
    assert_eq!(bank[1].options[bank[1].correct_option_index as usize], "6379");
    assert_eq!(bank[8].options[bank[8].correct_option_index as usize], "docker-compose up -d");
    assert_eq!(bank[9].text, "¿Cómo se define un contrato de red en un archivo .proto?");
    assert_eq!(bank[9].options[0], "service { ... }");
    assert_eq!(bank[9].correct_option_index, 0);
}

#[test]
fn every_seeded_right_option_is_accepted() {
    for q in seed_questions() {
        let right = q.options[q.correct_option_index as usize].clone();
        assert!(is_answer_accepted(&right, &q));
    }
}

#[test]
fn exact_right_option_is_accepted() {
    let q = question("¿Capital de Francia?", &["Lyon", "París"], 1);
    assert!(is_answer_accepted("París", &q));
    assert!(!is_answer_accepted("Lyon", &q));
    assert!(!is_answer_accepted("parís", &q));
}

#[test]
fn right_answers_of_the_bank_are_accepted_whatever_the_question() {
    let q = question("¿Capital de Francia?", &["Lyon", "París"], 1);
    assert!(is_answer_accepted("Saga", &q));
    assert!(is_answer_accepted("HTTP/2", &q));
    assert!(is_answer_accepted("docker-compose up -d", &q));
    assert!(!is_answer_accepted("Patrón Saga", &q));
    assert!(!is_answer_accepted("HTTP/1.1", &q));
    assert!(!is_answer_accepted("Redis", &q));
}

#[test]
fn wrong_options_of_the_bank_are_rejected() {
    let bank = seed_questions();
    let grpc = &bank[2];
    assert!(!is_answer_accepted("Google RPC", grpc));
    assert!(!is_answer_accepted("General RPC", grpc));
    assert!(is_answer_accepted("gRPC Remote Procedure Call", grpc));
    assert!(!is_answer_accepted("Go RPC", grpc));
    for q in &bank {
        for (i, option) in q.options.iter().enumerate() {
            let right_somewhere = bank.iter().any(|b| &b.options[b.correct_option_index as usize] == option);
            if i != q.correct_option_index as usize && !right_somewhere {
                assert!(!is_answer_accepted(option, q), "{:?} accepted", option);
            }
        }
    }
}

#[test]
fn round_numbers_questions_from_one_and_ends_with_the_end_screen() {
    let qs = vec![question("Uno", &["a", "b"], 0), question("Dos", &["c"], 0)];
    let payloads: Vec<QuestionPayload> = round_payloads(&qs).unwrap();
    assert_eq!(payloads.len(), 3);
    assert_eq!(payloads[0].text, "Pregunta 1: Uno");
    assert_eq!(payloads[0].options, vec!["a", "b"]);
    assert_eq!(payloads[0].time_limit_sec, 20);
    assert_eq!(payloads[1].text, "Pregunta 2: Dos");
    assert_eq!(payloads[2].text, "🏁 ¡Juego Terminado! Esperando guardado en DB...");
    assert!(payloads[2].options.is_empty());
    assert_eq!(payloads[2].time_limit_sec, 0);
    assert_eq!(QUESTION_TIME_SEC, 20);
}

#[test]
fn round_over_no_question_is_refused() {
    assert!(round_payloads(&Vec::new()).is_none());
}

#[test]
fn round_payload_of_the_tenth_question() {
    let p = round_payload(9, &question("Diez", &["x"], 0));
    assert_eq!(p.text, "Pregunta 10: Diez");
    let end = end_of_game();
    assert_eq!(end.time_limit_sec, 0);
}

#[test]
fn round_over_the_seed_bank() {
    let bank = seed_questions();
    let payloads = round_payloads(&bank).unwrap();
    assert_eq!(payloads.len(), 11);
    assert_eq!(payloads[0].text, "Pregunta 1: ¿Cuál es el patrón de diseño para revertir transacciones en microservicios?");
    assert_eq!(payloads[9].text, "Pregunta 10: ¿Cómo se define un contrato de red en un archivo .proto?");
    assert_eq!(payloads[9].options, bank[9].options);
    assert!(payloads[10].options.is_empty());
}
