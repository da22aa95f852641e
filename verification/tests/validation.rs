use acp_ledger::integrity::{
    is_valid_phase, validate, validate_acp_agent, validate_acp_job, AcpAgent, AcpJob, Address,
    EntryPayload, Op, Record, Validation,
};
use acp_ledger::text::{
    char_is_white_space, chars_of, contains_text, decimal_text, has_transaction_hash_format,
    has_wallet_address_format, is_blank_text, same_text,
};

fn wallet() -> String {
    format!("0x{}", "a".repeat(40))
}

fn escrow() -> String {
    format!("0x{}", "b".repeat(64))
}

fn agent(wallet_address: &str, name: &str) -> AcpAgent {
    AcpAgent {
        wallet_address: wallet_address.to_string(),
        session_key_id: 7,
        name: name.to_string(),
        description: "does things".to_string(),
        registered_at: 1_700_000_000_000_000,
    }
}

fn job() -> AcpJob {
    AcpJob {
        job_id: "job_1".to_string(),
        phases: vec!["requested".to_string()],
        escrow_hash: escrow(),
        agent_wallet_address: wallet(),
        job_offering_name: "summarise".to_string(),
        service_requirements: "{}".to_string(),
        created_at: 1,
        current_phase: "requested".to_string(),
        deliverable: None,
    }
}

fn invalid(reason: &str) -> Validation {
    Validation::Invalid(reason.to_string())
}

const WALLET_REASON: &str = "wallet_address must be a valid Ethereum address (0x... 42 chars)";
const ESCROW_REASON: &str = "escrow_hash must be a valid transaction hash (0x... 66 chars)";
const JOB_WALLET_REASON: &str = "agent_wallet_address must be a valid Ethereum address";
const PHASE_REASON: &str =
    "current_phase must be one of: requested, negotiation, transaction, completed, rejected";

#[test]
fn wallet_address_too_short_is_rejected() {
    assert!(!has_wallet_address_format("0x123"));
    assert_eq!(validate_acp_agent(agent("0x123", "Bot")), invalid(WALLET_REASON));
}

#[test]
fn wallet_address_of_forty_hex_digits_is_accepted() {
    assert!(has_wallet_address_format(&wallet()));
    assert_eq!(validate_acp_agent(agent(&wallet(), "Bot")), Validation::Valid);
}

#[test]
fn wallet_address_needs_the_prefix() {
    let no_prefix = "a".repeat(42);
    assert!(!has_wallet_address_format(&no_prefix));
    let upper = format!("0X{}", "a".repeat(40));
    assert!(!has_wallet_address_format(&upper));
    assert!(!has_wallet_address_format(""));
    assert!(!has_wallet_address_format("0"));
    assert!(!has_wallet_address_format(&format!("0x{}", "a".repeat(41))));
    assert!(!has_wallet_address_format(&format!("0x{}", "a".repeat(39))));
}

#[test]
fn wallet_address_is_measured_in_bytes() {
    // 2 + 20 * 2 bytes: 22 characters, 42 bytes.
    let two_byte = format!("0x{}", "é".repeat(20));
    assert_eq!(two_byte.len(), 42);
    assert!(has_wallet_address_format(&two_byte));
    // 42 characters, 82 bytes.
    let long = format!("0x{}", "é".repeat(40));
    assert!(!has_wallet_address_format(&long));
}

#[test]
fn wallet_address_is_not_checked_for_hex_digits() {
    let odd = format!("0x{}", "z".repeat(40));
    assert!(has_wallet_address_format(&odd));
}

#[test]
fn transaction_hash_format() {
    assert!(has_transaction_hash_format(&escrow()));
    assert!(!has_transaction_hash_format(&wallet()));
    assert!(!has_transaction_hash_format(&"b".repeat(66)));
    assert!(!has_transaction_hash_format(&format!("0x{}", "b".repeat(65))));
    assert!(!has_transaction_hash_format(&format!("0x{}", "b".repeat(63))));
}

#[test]
fn blank_name_is_rejected() {
    assert_eq!(validate_acp_agent(agent(&wallet(), "")), invalid("name cannot be empty"));
    assert_eq!(validate_acp_agent(agent(&wallet(), " \t\n ")), invalid("name cannot be empty"));
    assert_eq!(
        validate_acp_agent(agent(&wallet(), "\u{3000}\u{2003}")),
        invalid("name cannot be empty")
    );
    assert_eq!(validate_acp_agent(agent(&wallet(), " x ")), Validation::Valid);
}

#[test]
fn wallet_rule_comes_before_name_rule() {
    assert_eq!(validate_acp_agent(agent("0x123", "  ")), invalid(WALLET_REASON));
}

#[test]
fn white_space_agrees_with_the_standard_library() {
    let mut code: u32 = 0;
    while code <= 0x10FFFF {
        if let Some(c) = char::from_u32(code) {
            assert_eq!(char_is_white_space(c), c.is_whitespace(), "code point {}", code);
        }
        code += 1;
    }
}

#[test]
fn blank_agrees_with_trim() {
    for s in ["", " ", "a", " a", "a ", "\t\r\n", "\u{a0}", "\u{200b}", "\u{85}\u{1680}", "é "] {
        assert_eq!(is_blank_text(s), s.trim().is_empty(), "{:?}", s);
    }
}

#[test]
fn chars_of_gives_every_character() {
    assert_eq!(chars_of("héllo"), vec!['h', 'é', 'l', 'l', 'o']);
    assert_eq!(chars_of(""), Vec::<char>::new());
}

#[test]
fn same_text_compares_whole_texts() {
    assert!(same_text("abc", "abc"));
    assert!(same_text("", ""));
    assert!(!same_text("abc", "abd"));
    assert!(!same_text("abc", "ab"));
    assert!(!same_text("ab", "abc"));
}

#[test]
fn contains_text_agrees_with_the_standard_library() {
    let texts = ["", "a", "ab", "ba", "abc", "helper bot", "help", "zzz", "élan", "lan", "é"];
    for hay in texts {
        for needle in texts {
            assert_eq!(contains_text(hay, needle), hay.contains(needle), "{:?} {:?}", hay, needle);
        }
    }
}

#[test]
fn decimal_text_writes_the_number() {
    assert_eq!(decimal_text(0), "0");
    assert_eq!(decimal_text(7), "7");
    assert_eq!(decimal_text(10), "10");
    assert_eq!(decimal_text(1_700_000_000_123_456), "1700000000123456");
    assert_eq!(decimal_text(u64::MAX), "18446744073709551615");
    for n in [9u64, 99, 100, 101, 12345, 909090] {
        assert_eq!(decimal_text(n), format!("{}", n));
    }
}

#[test]
fn the_five_phases_are_known() {
    for phase in ["requested", "negotiation", "transaction", "completed", "rejected"] {
        assert!(is_valid_phase(phase));
    }
    for phase in ["unknown", "", "Requested", "requested ", "complete"] {
        assert!(!is_valid_phase(phase));
    }
}

#[test]
fn well_formed_job_is_accepted() {
    assert_eq!(validate_acp_job(job()), Validation::Valid);
    for phase in ["negotiation", "transaction", "completed", "rejected"] {
        let mut j = job();
        j.current_phase = phase.to_string();
        assert_eq!(validate_acp_job(j), Validation::Valid);
    }
}

#[test]
fn unknown_phase_is_rejected_naming_the_five_phases() {
    let mut j = job();
    j.current_phase = "unknown".to_string();
    let result = validate_acp_job(j);
    assert_eq!(result, invalid(PHASE_REASON));
    if let Validation::Invalid(reason) = result {
        for phase in ["requested", "negotiation", "transaction", "completed", "rejected"] {
            assert!(reason.contains(phase));
        }
    }
}

#[test]
fn job_escrow_hash_is_checked() {
    let mut j = job();
    j.escrow_hash = "0xabc".to_string();
    assert_eq!(validate_acp_job(j), invalid(ESCROW_REASON));
}

#[test]
fn job_wallet_address_is_checked() {
    let mut j = job();
    j.agent_wallet_address = "0x123".to_string();
    assert_eq!(validate_acp_job(j), invalid(JOB_WALLET_REASON));
}

#[test]
fn job_phases_must_not_be_empty() {
    let mut j = job();
    j.phases = Vec::new();
    assert_eq!(validate_acp_job(j), invalid("phases cannot be empty"));
}

#[test]
fn job_id_must_not_be_blank() {
    let mut j = job();
    j.job_id = "   ".to_string();
    assert_eq!(validate_acp_job(j), invalid("job_id cannot be empty"));
}

#[test]
fn job_rules_report_the_first_failure_only() {
    let mut j = job();
    j.escrow_hash = "bad".to_string();
    j.agent_wallet_address = "bad".to_string();
    j.phases = Vec::new();
    j.job_id = String::new();
    j.current_phase = "unknown".to_string();
    assert_eq!(validate_acp_job(j.clone()), invalid(ESCROW_REASON));
    j.escrow_hash = escrow();
    assert_eq!(validate_acp_job(j.clone()), invalid(JOB_WALLET_REASON));
    j.agent_wallet_address = wallet();
    assert_eq!(validate_acp_job(j.clone()), invalid("phases cannot be empty"));
    j.phases = vec!["anything".to_string()];
    assert_eq!(validate_acp_job(j.clone()), invalid("job_id cannot be empty"));
    j.job_id = "job_2".to_string();
    assert_eq!(validate_acp_job(j.clone()), invalid(PHASE_REASON));
    j.current_phase = "completed".to_string();
    assert_eq!(validate_acp_job(j), Validation::Valid);
}

fn stored(as_agent: Option<AcpAgent>, as_job: Option<AcpJob>) -> Op {
    Op::StoreRecord(Record {
        action_address: Address { bytes: [1; 39] },
        entry: Some(EntryPayload { as_agent, as_job }),
    })
}

#[test]
fn stored_profile_is_held_to_the_profile_rules() {
    assert_eq!(validate(stored(Some(agent(&wallet(), "Bot")), None)), Validation::Valid);
    assert_eq!(validate(stored(Some(agent("0x123", "Bot")), None)), invalid(WALLET_REASON));
}

#[test]
fn stored_job_is_held_to_the_job_rules() {
    assert_eq!(validate(stored(None, Some(job()))), Validation::Valid);
    let mut j = job();
    j.current_phase = "unknown".to_string();
    assert_eq!(validate(stored(None, Some(j))), invalid(PHASE_REASON));
}

#[test]
fn payload_of_both_shapes_is_read_as_a_profile() {
    let mut bad_job = job();
    bad_job.escrow_hash = "bad".to_string();
    assert_eq!(
        validate(stored(Some(agent(&wallet(), "Bot")), Some(bad_job))),
        Validation::Valid
    );
    assert_eq!(validate(stored(Some(agent("0x123", "Bot")), Some(job()))), invalid(WALLET_REASON));
}

#[test]
fn unrecognised_payload_passes() {
    assert_eq!(validate(stored(None, None)), Validation::Valid);
    let no_entry = Op::StoreRecord(Record { action_address: Address { bytes: [1; 39] }, entry: None });
    assert_eq!(validate(no_entry), Validation::Valid);
}

#[test]
fn links_and_other_operations_pass() {
    assert_eq!(validate(Op::RegisterCreateLink), Validation::Valid);
    assert_eq!(validate(Op::Other), Validation::Valid);
}
