use oks::disclosure::{Disclosure, DisclosureAction, DisclosureEvent, DisclosureState};
use oks::shares::read_entry;
use oks::sharing::split;

fn secret() -> Vec<u8> {
    (0u8..32).map(|i| i.wrapping_mul(3).wrapping_add(1)).collect()
}

#[test]
fn shares_are_handed_out_one_by_one_with_acknowledgements() {
    let set = split(&secret(), 5, 3).unwrap();
    let expected: Vec<String> =
        set.shares().iter().map(|s| format!("{}\n", s.to_hex())).collect();
    let (mut disclosure, verifier) = Disclosure::new(set);
    assert_eq!(disclosure.count(), 5);
    assert_eq!(disclosure.state(), DisclosureState::Idle);
    assert_eq!(disclosure.line(), None);
    assert_eq!(disclosure.step(DisclosureEvent::Begin), DisclosureAction::AwaitCustodian(1));
    for i in 0..5usize {
        assert_eq!(disclosure.state(), DisclosureState::Ready(i));
        assert_eq!(disclosure.line(), None);
        assert_eq!(
            disclosure.step(DisclosureEvent::Acknowledged),
            DisclosureAction::PrintShare(i + 1)
        );
        let line = disclosure.line().unwrap();
        assert_eq!(line, expected[i]);
        assert_eq!(line.len(), 67);
        let read = read_entry(&line, &verifier).unwrap();
        assert_eq!(read.identifier(), (i + 1) as u8);
        assert_eq!(
            disclosure.step(DisclosureEvent::Printed),
            DisclosureAction::AwaitCollection(i + 1)
        );
        assert_eq!(disclosure.line(), None);
        let next = disclosure.step(DisclosureEvent::Acknowledged);
        if i < 4 {
            assert_eq!(next, DisclosureAction::AwaitCustodian(i + 2));
        } else {
            assert_eq!(next, DisclosureAction::Done);
        }
    }
    assert_eq!(disclosure.state(), DisclosureState::Finished);
    assert_eq!(disclosure.step(DisclosureEvent::Begin), DisclosureAction::Rejected);
    assert_eq!(disclosure.step(DisclosureEvent::Failed), DisclosureAction::Rejected);
    assert_eq!(disclosure.line(), None);
}

#[test]
fn printed_lines_rebuild_the_secret_when_typed_back() {
    let set = split(&secret(), 5, 3).unwrap();
    let (mut disclosure, verifier) = Disclosure::new(set);
    disclosure.step(DisclosureEvent::Begin);
    let mut typed = Vec::new();
    for _ in 0..5 {
        disclosure.step(DisclosureEvent::Acknowledged);
        typed.push(read_entry(&disclosure.line().unwrap(), &verifier).unwrap());
        disclosure.step(DisclosureEvent::Printed);
        disclosure.step(DisclosureEvent::Acknowledged);
    }
    let chosen = vec![typed[4].duplicate(), typed[1].duplicate(), typed[2].duplicate()];
    assert_eq!(oks::sharing::recombine(&chosen, &verifier), Ok(secret()));
}

#[test]
fn a_failure_gives_up_and_keeps_nothing() {
    let set = split(&secret(), 5, 3).unwrap();
    let (mut disclosure, _verifier) = Disclosure::new(set);
    disclosure.step(DisclosureEvent::Begin);
    disclosure.step(DisclosureEvent::Acknowledged);
    assert!(disclosure.line().is_some());
    assert_eq!(disclosure.step(DisclosureEvent::Failed), DisclosureAction::Abort);
    assert_eq!(disclosure.state(), DisclosureState::Broken);
    assert_eq!(disclosure.line(), None);
    assert_eq!(disclosure.step(DisclosureEvent::Acknowledged), DisclosureAction::Rejected);
    assert_eq!(disclosure.step(DisclosureEvent::Begin), DisclosureAction::Rejected);
}

#[test]
fn disclosure_events_out_of_turn_change_nothing() {
    let set = split(&secret(), 2, 2).unwrap();
    let (mut disclosure, _verifier) = Disclosure::new(set);
    assert_eq!(disclosure.step(DisclosureEvent::Acknowledged), DisclosureAction::Rejected);
    assert_eq!(disclosure.step(DisclosureEvent::Printed), DisclosureAction::Rejected);
    assert_eq!(disclosure.state(), DisclosureState::Idle);
    disclosure.step(DisclosureEvent::Begin);
    assert_eq!(disclosure.step(DisclosureEvent::Printed), DisclosureAction::Rejected);
    assert_eq!(disclosure.step(DisclosureEvent::Begin), DisclosureAction::Rejected);
    assert_eq!(disclosure.state(), DisclosureState::Ready(0));
    disclosure.step(DisclosureEvent::Acknowledged);
    let line = disclosure.line();
    assert_eq!(disclosure.step(DisclosureEvent::Acknowledged), DisclosureAction::Rejected);
    assert_eq!(disclosure.line(), line);
    assert_eq!(disclosure.state(), DisclosureState::Printing(0));
}
