use scilla::chunker::chunk_payload;
use scilla::constants::CHUNK_SIZE;
use scilla::instructions::{compute_unit_price_data, CHUNK_PRIORITY_FEE};
use scilla::pipeline::{DeployConfig, DeployError, Deployment, NextStep, Phase, RoundAction};
use scilla::storage::{size_of_buffer, size_of_programdata};

fn config(fallback_enabled: bool, make_immutable: bool) -> DeployConfig {
    DeployConfig { max_wait: 60, resend_interval: 2, fallback_enabled, make_immutable }
}

/// A deployment of `len` bytes in chunks of 1000, broadcast at time 0.
fn confirming(len: usize, cfg: DeployConfig) -> Deployment {
    let mut d = Deployment::new(len, 1000, cfg).unwrap();
    d.record_sizes(Some(10), Some(20)).unwrap();
    d.record_allocation(true).unwrap();
    let first = d.start_broadcast(3, 0).unwrap();
    assert_eq!(first.len(), d.chunk_count());
    d
}

fn payload(len: usize) -> Vec<u8> {
    (0..len).map(|i| (i * 7 % 251) as u8).collect()
}

#[test]
fn chunking_reassembles_for_edge_lengths() {
    let c = CHUNK_SIZE;
    for len in [0, 1, c - 1, c, c + 1, 10 * c + 7] {
        let p = payload(len);
        let chunks = chunk_payload(&p, c);
        assert_eq!(chunks.len(), (len + c - 1) / c);
        let mut joined = Vec::new();
        for (i, ch) in chunks.iter().enumerate() {
            assert_eq!(ch.index as usize, i);
            assert_eq!(ch.offset as usize, i * c);
            joined.extend_from_slice(&ch.bytes);
        }
        assert_eq!(joined, p);
    }
}

#[test]
fn chunking_exact_multiple_has_no_empty_tail() {
    let chunks = chunk_payload(&payload(3000), 1000);
    let lens: Vec<usize> = chunks.iter().map(|c| c.bytes.len()).collect();
    assert_eq!(lens, vec![1000, 1000, 1000]);
}

#[test]
fn empty_payload_is_refused() {
    assert!(matches!(Deployment::new(0, 1000, config(true, false)), Err(DeployError::EmptyPayload)));
}

#[test]
fn sizing_failure_is_fatal() {
    let mut d = Deployment::new(10, 1000, config(true, false)).unwrap();
    assert!(matches!(d.record_sizes(Some(1), None), Err(DeployError::SizingFailed)));
    assert_eq!(d.phase(), Phase::Failed);
}

#[test]
fn allocation_failure_is_fatal() {
    let mut d = Deployment::new(10, 1000, config(true, false)).unwrap();
    d.record_sizes(Some(1), Some(2)).unwrap();
    assert_eq!(d.rents(), (1, 2));
    assert!(matches!(d.record_allocation(false), Err(DeployError::AllocationFailed)));
    assert_eq!(d.phase(), Phase::Failed);
}

#[test]
fn no_endpoint_is_fatal() {
    let mut d = Deployment::new(10, 1000, config(true, false)).unwrap();
    d.record_sizes(Some(1), Some(2)).unwrap();
    d.record_allocation(true).unwrap();
    assert!(matches!(d.start_broadcast(0, 0), Err(DeployError::DiscoveryEmpty)));
    assert_eq!(d.phase(), Phase::Failed);
}

#[test]
fn confirmed_run_broadcasts_nothing_more() {
    let mut d = confirming(2500, config(true, false));
    let r = d.poll_round(&vec![true, true, true], 1).unwrap();
    assert!(matches!(r, RoundAction::AllConfirmed));
    let again = d.poll_round(&vec![false, false, false], 10).unwrap();
    assert!(matches!(again, RoundAction::AllConfirmed));
    assert!(d.pending().is_empty());
}

#[test]
fn resend_holds_only_the_unconfirmed_chunk() {
    let mut d = confirming(2500, config(true, false));
    let r = d.poll_round(&vec![true, false, true], 2).unwrap();
    match r {
        RoundAction::Resend(batch) => assert_eq!(batch, vec![1]),
        other => panic!("unexpected {:?}", other),
    }
}

#[test]
fn no_resend_before_the_interval() {
    let mut d = confirming(2500, config(true, false));
    assert!(matches!(d.poll_round(&vec![false, false, false], 1).unwrap(), RoundAction::Wait));
}

#[test]
fn finalize_is_refused_with_unconfirmed_chunks() {
    let mut d = confirming(2500, config(true, false));
    d.poll_round(&vec![true, false, true], 1).unwrap();
    let mut finalize_sent = 0;
    match d.begin_finalize() {
        Ok(()) => finalize_sent += 1,
        Err(DeployError::IncompleteUpload { unconfirmed }) => assert_eq!(unconfirmed, vec![1]),
        Err(other) => panic!("unexpected {:?}", other),
    }
    assert_eq!(finalize_sent, 0);
    assert_eq!(d.phase(), Phase::Confirming);
}

#[test]
fn fallback_submits_each_unconfirmed_chunk_in_order() {
    let mut d = confirming(4500, config(true, false));
    d.poll_round(&vec![false, true, false, true, false], 1).unwrap();
    let batch = match d.poll_round(&vec![false; 5], 60).unwrap() {
        RoundAction::Fallback(b) => b,
        other => panic!("unexpected {:?}", other),
    };
    assert_eq!(batch, vec![0, 2, 4]);
    assert_eq!(d.phase(), Phase::FallbackSubmitting);
    let mut submitted = Vec::new();
    while let Some(i) = d.next_fallback() {
        submitted.push(i);
        d.record_fallback(i, true).unwrap();
    }
    assert_eq!(submitted, vec![0, 2, 4]);
    assert_eq!(d.phase(), Phase::AllConfirmed);
}

#[test]
fn fallback_failure_is_fatal() {
    let mut d = confirming(2500, config(true, false));
    d.poll_round(&vec![false; 3], 61).unwrap();
    let r = d.record_fallback(0, false);
    assert!(matches!(r, Err(DeployError::FallbackFailed { index: 0 })));
    assert_eq!(d.phase(), Phase::Failed);
}

#[test]
fn exhausted_without_fallback_reports_pending() {
    let mut d = confirming(2500, config(false, false));
    match d.poll_round(&vec![false, true, false], 60) {
        Err(DeployError::ConfirmationExhausted { pending }) => assert_eq!(pending, vec![0, 2]),
        other => panic!("unexpected {:?}", other),
    }
    assert_eq!(d.phase(), Phase::Failed);
}

#[test]
fn finalize_failure_is_reported() {
    let mut d = confirming(1000, config(true, false));
    d.poll_round(&vec![true], 1).unwrap();
    d.begin_finalize().unwrap();
    assert!(matches!(d.record_finalize(false), Err(DeployError::FinalizeFailed)));
    assert_eq!(d.phase(), Phase::Failed);
}

#[test]
fn immutable_deploy_revokes_authority() {
    let mut d = confirming(1000, config(true, true));
    d.poll_round(&vec![true], 1).unwrap();
    d.begin_finalize().unwrap();
    assert_eq!(d.record_finalize(true).unwrap(), NextStep::RevokeAuthority);
    assert!(matches!(d.record_revoke(false), Err(DeployError::RevokeFailed)));
    assert_eq!(d.phase(), Phase::Finalized);
    d.record_revoke(true).unwrap();
    assert_eq!(d.phase(), Phase::AuthorityRevoked);
}

#[test]
fn cancel_stops_a_running_upload() {
    let mut d = confirming(2500, config(true, false));
    assert!(d.cancel());
    assert_eq!(d.phase(), Phase::Cancelled);
    assert!(!d.cancel());
}

#[test]
fn end_to_end_three_chunks() {
    let p = payload(2500);
    let chunks = chunk_payload(&p, 1000);
    let lens: Vec<usize> = chunks.iter().map(|c| c.bytes.len()).collect();
    assert_eq!(lens, vec![1000, 1000, 500]);

    let mut d = Deployment::new(p.len(), 1000, config(true, false)).unwrap();
    d.record_sizes(Some(100), Some(200)).unwrap();
    d.record_allocation(true).unwrap();
    let first = d.start_broadcast(3, 0).unwrap();
    assert_eq!(first, vec![0, 1, 2]);

    // Round one confirms chunks 0 and 2; the resend interval has not passed.
    assert!(matches!(d.poll_round(&vec![true, false, true], 1).unwrap(), RoundAction::Wait));
    // Round two, after the interval: only chunk 1 goes out again.
    match d.poll_round(&vec![false, false, false], 2).unwrap() {
        RoundAction::Resend(b) => assert_eq!(b, vec![1]),
        other => panic!("unexpected {:?}", other),
    }
    // The next poll confirms it.
    assert!(matches!(d.poll_round(&vec![false, true, false], 3).unwrap(), RoundAction::AllConfirmed));

    let mut finalize_calls = 0;
    if d.begin_finalize().is_ok() {
        finalize_calls += 1;
    }
    assert_eq!(finalize_calls, 1);
    assert_eq!(d.record_finalize(true).unwrap(), NextStep::Done);
    assert_eq!(d.phase(), Phase::Finalized);
}

#[test]
fn storage_sizes_add_loader_metadata() {
    assert_eq!(size_of_buffer(2500), 2537);
    assert_eq!(size_of_programdata(2500), 2545);
    assert_eq!(size_of_buffer(usize::MAX), usize::MAX);
    assert_eq!(size_of_programdata(usize::MAX - 44), usize::MAX);
}

#[test]
fn compute_unit_price_layout() {
    assert_eq!(compute_unit_price_data(CHUNK_PRIORITY_FEE), vec![3, 0x50, 0xc3, 0, 0, 0, 0, 0, 0]);
    assert_eq!(compute_unit_price_data(0x0102030405060708), vec![3, 8, 7, 6, 5, 4, 3, 2, 1]);
}
