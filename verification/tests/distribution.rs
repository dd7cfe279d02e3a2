use choices::evaluate::{evaluate, start, Progress};
use choices::experiment::{Choices, Experiment, Param};

fn uniform_experiment(namespace: &str, name: &str) -> Experiment {
    Experiment {
        name: String::from(name),
        namespace: String::from(namespace),
        params: vec![Param {
            name: String::from("p1"),
            choices: Choices::Uniform(vec![String::from("a"), String::from("b")]),
        }],
        segments: vec![255u8; 16],
    }
}

/// Pseudo-random, pairwise distinct user ids (a full-period 64-bit linear
/// congruential generator, printed in hex).
fn user_ids(n: usize) -> Vec<String> {
    let mut seed: u64 = 0x2545f4914f6cdd1d;
    let mut out = Vec::with_capacity(n);
    for _ in 0..n {
        seed = seed
            .wrapping_mul(6364136223846793005)
            .wrapping_add(1442695040888963407);
        out.push(format!("u{seed:016x}"));
    }
    out
}

/// The numeric partition scan over weighted choices: cumulative sums of the
/// weights, a draw scaled into [0, total), and the first partition boundary
/// strictly above the draw.
fn pick_weighted(weights: &[u64], hash: u64) -> Option<usize> {
    let mut partitions: Vec<f64> = Vec::new();
    let mut accum = 0f64;
    for w in weights {
        accum += f64::from_bits(*w);
        partitions.push(accum);
    }
    let total = partitions[partitions.len() - 1];
    let long_scale = 0xFF_FF_FF_FF_FF_FF_FF_FFu64 as f64;
    let x = (hash as f64) / long_scale * total;
    partitions.iter().position(|&p| x < p)
}

fn run_weighted(e: &Experiment, user: &str) -> String {
    let mut progress = start(e, user).expect("fully open segments must admit");
    loop {
        match progress {
            Progress::Done(x) => return x.params[0].choice.clone(),
            Progress::NeedPick(ev, q) => {
                let pick = pick_weighted(&q.weights, q.hash);
                progress = ev.supply(e, user, pick).expect("a pick was supplied");
            }
        }
    }
}

#[test]
fn uniform_two_choices_split_evenly() {
    let e = uniform_experiment("namespace", "this");
    let mut count_a = 0usize;
    let mut count_b = 0usize;
    for user in user_ids(10000) {
        let x = evaluate(&e, &user).expect("fully open segments must admit");
        match x.params[0].choice.as_str() {
            "a" => count_a += 1,
            "b" => count_b += 1,
            other => panic!("unexpected label {other}"),
        }
    }
    assert!(count_a + count_b == 10000);
    assert!((4750..=5250).contains(&count_a), "count_a = {count_a}");
    assert!((4750..=5250).contains(&count_b), "count_b = {count_b}");
}

#[test]
fn weighted_one_to_two_ratio() {
    let e = Experiment {
        name: String::from("that"),
        namespace: String::from("arstneio"),
        params: vec![Param {
            name: String::from("my-param"),
            choices: Choices::Weighted(vec![
                (String::from("a"), 1.0f64.to_bits()),
                (String::from("b"), 2.0f64.to_bits()),
            ]),
        }],
        segments: vec![255u8; 16],
    };
    let mut count_a = 0usize;
    let mut count_b = 0usize;
    for user in user_ids(10000) {
        match run_weighted(&e, &user).as_str() {
            "a" => count_a += 1,
            "b" => count_b += 1,
            other => panic!("unexpected label {other}"),
        }
    }
    assert!(count_a + count_b == 10000);
    assert!((3100..=3560).contains(&count_a), "count_a = {count_a}");
    assert!((6440..=6900).contains(&count_b), "count_b = {count_b}");
}

#[test]
fn namespaces_isolate_assignments() {
    // The same experiment under two namespaces: for one user the two
    // assignments come from unrelated hashes, so over many users the four
    // label pairs each appear about a quarter of the time.
    let e1 = uniform_experiment("namespace-one", "this");
    let e2 = uniform_experiment("namespace-two", "this");
    let mut combos = [0usize; 4];
    for user in user_ids(10000) {
        let x1 = evaluate(&e1, &user).expect("fully open segments must admit");
        let x2 = evaluate(&e2, &user).expect("fully open segments must admit");
        let i = match (x1.params[0].choice.as_str(), x2.params[0].choice.as_str()) {
            ("a", "a") => 0,
            ("a", "b") => 1,
            ("b", "a") => 2,
            ("b", "b") => 3,
            other => panic!("unexpected labels {other:?}"),
        };
        combos[i] += 1;
    }
    for (i, c) in combos.iter().enumerate() {
        assert!((2250..=2750).contains(c), "combo {i} has count {c}");
    }
}
