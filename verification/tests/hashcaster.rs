use bench::config::ConfigError;
use bench::hashcaster::hash::{next_lin_point, HashcasterKeccak};
use bench::hashcaster::util::{CompressedPoly, Error, FriPcsProof, SumcheckError, SumcheckProof};
use bench::util::po2;

fn sumcheck(rounds: usize, coeffs: usize, evals: usize) -> SumcheckProof {
    SumcheckProof {
        round_polys: vec![CompressedPoly { compressed_coeffs: vec![7; coeffs] }; rounds],
        evals: vec![9; evals],
    }
}

#[test]
fn keccak() {
    let mut counts = vec![];
    for num_permutations in po2(10..13) {
        let snark = HashcasterKeccak::new(num_permutations, 1).unwrap();
        assert!(snark.num_permutations() >= num_permutations);
        assert_eq!(snark.num_permutations(), 3 * num_permutations / 2);
        assert_eq!(snark.num_vars(), snark.num_permutations().ilog2() as usize + 2);
        counts.push((snark.num_permutations(), snark.num_vars()));
    }
    assert_eq!(counts, vec![(1536, 12), (3072, 13), (6144, 14)]);
}

#[test]
fn a_batch_has_at_least_384_permutations() {
    for requested in [0, 1, 7, 256, 383, 384] {
        let snark = HashcasterKeccak::new(requested, 2).unwrap();
        assert_eq!(snark.num_permutations(), 384);
        assert_eq!(snark.num_vars(), 10);
        assert_eq!(snark.log_inv_rate(), 2);
    }
    assert_eq!(HashcasterKeccak::new(385, 1).unwrap().num_permutations(), 768);
}

#[test]
fn the_count_is_three_times_a_power_of_two_that_reaches_the_request() {
    for requested in 0..5000usize {
        let count = HashcasterKeccak::new(requested, 1).unwrap().num_permutations();
        assert!(count >= requested && count >= 384);
        assert_eq!(count % 3, 0);
        assert!((count / 3).is_power_of_two());
        assert!(count == 384 || count / 2 < requested);
    }
    assert_eq!(HashcasterKeccak::new(2047, 1).unwrap().num_permutations(), 3072);
    assert!(matches!(HashcasterKeccak::new(usize::MAX, 1), Err(ConfigError::CountTooLarge)));
}

#[test]
fn sumcheck_proofs_are_held_to_their_shape() {
    let snark = HashcasterKeccak::new(1024, 1).unwrap();
    assert_eq!(snark.num_vars(), 12);
    assert!(snark.chi_proofs_shaped(&sumcheck(12, 3, 640), &sumcheck(12, 2, 5)));
    assert!(!snark.chi_proofs_shaped(&sumcheck(11, 3, 640), &sumcheck(12, 2, 5)));
    assert!(!snark.chi_proofs_shaped(&sumcheck(12, 2, 640), &sumcheck(12, 2, 5)));
    assert!(!snark.chi_proofs_shaped(&sumcheck(12, 3, 639), &sumcheck(12, 2, 5)));
    assert!(!snark.chi_proofs_shaped(&sumcheck(12, 3, 640), &sumcheck(13, 2, 5)));
    assert!(!snark.chi_proofs_shaped(&sumcheck(12, 3, 640), &sumcheck(12, 3, 5)));
    assert!(!snark.chi_proofs_shaped(&sumcheck(12, 3, 640), &sumcheck(12, 2, 6)));
    assert!(snark.lin_proof_shaped(&sumcheck(10, 2, 5)));
    assert!(!snark.lin_proof_shaped(&sumcheck(12, 2, 5)));
    assert!(!snark.lin_proof_shaped(&sumcheck(10, 3, 5)));
    assert!(!snark.lin_proof_shaped(&sumcheck(10, 2, 4)));
    let mut ragged = sumcheck(10, 2, 5);
    ragged.round_polys[9].compressed_coeffs.push(1);
    assert!(!snark.lin_proof_shaped(&ragged));
    assert!(!ragged.has_shape(10, 2, 5));
    assert!(sumcheck(0, 2, 0).has_shape(0, 9, 0));
}

#[test]
fn the_point_of_a_linear_layer_keeps_the_tail() {
    let point: Vec<u128> = (100..112).collect();
    let challenges: Vec<u128> = (0..10).collect();
    let next = next_lin_point(challenges, &point);
    assert_eq!(next, vec![0, 1, 2, 3, 4, 5, 6, 7, 8, 9, 110, 111]);
    let short: Vec<u128> = (0..10).collect();
    assert_eq!(next_lin_point(vec![5, 6], &short), vec![5, 6]);
}

#[test]
fn errors_and_proofs_hold_what_they_are_given() {
    let err = Error::from_sumcheck(SumcheckError::UnmatchedSubclaim("LinCheck".to_string()));
    assert!(matches!(err, Error::Sumcheck(SumcheckError::UnmatchedSubclaim(ref s)) if s == "LinCheck"));
    assert!(matches!(Error::from_pcs("bad opening".to_string()), Error::Pcs(ref s) if s == "bad opening"));
    let proof = FriPcsProof::new(vec![1, 2], vec![3]);
    assert_eq!(proof.transcript(), &vec![1, 2]);
    assert_eq!(proof.advice(), &vec![3]);
}
