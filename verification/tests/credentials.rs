use oks::credentials::{
    confirm_password, first_confirmed, get_auth_id, get_new_passwd, get_passwd, ChallengeStep,
    HsmCommand, NewPasswordSource, PasswordChallenge, PasswordSource, DEFAULT_PASSWORD,
    ENV_NEW_PASSWORD, ENV_PASSWORD,
};

const COMMANDS: [HsmCommand; 4] = [
    HsmCommand::Generate,
    HsmCommand::Initialize,
    HsmCommand::Restore,
    HsmCommand::SerialNumber,
];

#[test]
fn the_named_credential_is_used() {
    for command in COMMANDS {
        assert_eq!(get_auth_id(Some(7), command), 7);
        assert_eq!(get_auth_id(Some(0), command), 0);
    }
}

#[test]
fn a_device_in_its_factory_state_is_opened_with_the_factory_credential() {
    assert_eq!(get_auth_id(None, HsmCommand::Initialize), 1);
    assert_eq!(get_auth_id(None, HsmCommand::Restore), 1);
    assert_eq!(get_auth_id(None, HsmCommand::SerialNumber), 1);
    assert_eq!(get_auth_id(None, HsmCommand::Generate), 2);
    assert!(HsmCommand::Initialize.for_factory_state());
    assert!(!HsmCommand::Generate.for_factory_state());
}

#[test]
fn a_password_from_the_environment_comes_first() {
    for command in COMMANDS {
        for auth_id in [None, Some(1), Some(2)] {
            assert_eq!(
                get_passwd(Some("from-env".to_string()), auth_id, command),
                PasswordSource::Given("from-env".to_string())
            );
        }
    }
    assert_eq!(ENV_PASSWORD, "OKS_PASSWORD");
    assert_eq!(ENV_NEW_PASSWORD, "OKS_NEW_PASSWORD");
}

#[test]
fn without_one_the_operator_is_asked_unless_the_password_is_known() {
    for command in COMMANDS {
        assert_eq!(get_passwd(None, Some(1), command), PasswordSource::Prompt);
        assert_eq!(get_passwd(None, Some(2), command), PasswordSource::Prompt);
    }
    assert_eq!(get_passwd(None, None, HsmCommand::Initialize), PasswordSource::Default);
    assert_eq!(get_passwd(None, None, HsmCommand::Restore), PasswordSource::Default);
    assert_eq!(get_passwd(None, None, HsmCommand::SerialNumber), PasswordSource::Default);
    assert_eq!(get_passwd(None, None, HsmCommand::Generate), PasswordSource::Prompt);
    assert_eq!(DEFAULT_PASSWORD, "password");
}

#[test]
fn a_new_password_is_given_drawn_or_entered() {
    assert_eq!(
        get_new_passwd(Some("new".to_string()), true),
        NewPasswordSource::Given("new".to_string())
    );
    assert_eq!(
        get_new_passwd(Some("new".to_string()), false),
        NewPasswordSource::Given("new".to_string())
    );
    assert_eq!(get_new_passwd(None, true), NewPasswordSource::Generate(16));
    assert_eq!(get_new_passwd(None, false), NewPasswordSource::Challenge);
}

#[test]
fn two_mismatches_and_a_match_give_the_matching_password_once() {
    let mut challenge = PasswordChallenge::new();
    let mut given = Vec::new();
    let mut answers = Vec::new();
    for entry in ["alpha", "beta", "gamma", "gamma"] {
        let step = challenge.enter(entry.to_string());
        if let ChallengeStep::Confirmed(password) = &step {
            given.push(password.clone());
        }
        answers.push(step);
    }
    assert_eq!(
        answers,
        vec![
            ChallengeStep::Confirm,
            ChallengeStep::Mismatch,
            ChallengeStep::Confirm,
            ChallengeStep::Confirmed("gamma".to_string()),
        ]
    );
    assert_eq!(given, vec!["gamma".to_string()]);
    assert_eq!(
        first_confirmed(
            ["alpha", "beta", "gamma", "gamma"].iter().map(|s| s.to_string()).collect()
        ),
        Some("gamma".to_string())
    );
}

#[test]
fn a_challenge_never_gives_a_password_entered_once() {
    let mut challenge = PasswordChallenge::new();
    assert_eq!(challenge.enter("once".to_string()), ChallengeStep::Confirm);
    assert_eq!(challenge.enter("onc".to_string()), ChallengeStep::Mismatch);
    assert_eq!(challenge.enter("onc".to_string()), ChallengeStep::Confirm);
    assert_eq!(challenge.enter("once".to_string()), ChallengeStep::Mismatch);
    assert_eq!(challenge.enter(String::new()), ChallengeStep::Confirm);
    assert_eq!(challenge.enter(String::new()), ChallengeStep::Confirmed(String::new()));
}

#[test]
fn first_confirmed_takes_entries_in_pairs() {
    let list = |items: &[&str]| -> Vec<String> { items.iter().map(|s| s.to_string()).collect() };
    assert_eq!(first_confirmed(Vec::new()), None);
    assert_eq!(first_confirmed(list(&["a"])), None);
    assert_eq!(first_confirmed(list(&["a", "a"])), Some("a".to_string()));
    assert_eq!(first_confirmed(list(&["a", "b"])), None);
    assert_eq!(first_confirmed(list(&["a", "b", "b"])), None);
    assert_eq!(first_confirmed(list(&["a", "b", "b", "b"])), Some("b".to_string()));
    assert_eq!(first_confirmed(list(&["a", "b", "b", "c", "d", "d"])), Some("d".to_string()));
    assert_eq!(first_confirmed(list(&["a", "a", "b", "b"])), Some("a".to_string()));
}

#[test]
fn confirm_password_erases_both_buffers() {
    let mut first = "swordfish".to_string();
    let mut second = "swordfish".to_string();
    assert_eq!(confirm_password(&mut first, &mut second), Some("swordfish".to_string()));
    assert!(first.is_empty());
    assert!(second.is_empty());
    let mut first = "swordfish".to_string();
    let mut second = "swordfisch".to_string();
    assert_eq!(confirm_password(&mut first, &mut second), None);
    assert!(first.is_empty());
    assert!(second.is_empty());
}
