use chaincash_offchain::{
    address_of, build_note, build_reserve, note_box_value, select_for, substitute, Binding,
    BoxSelection, CompiledContract, ContractTemplates, FundingBox, Guard, MintNoteRequest,
    MintReserveRequest, NodeAction, NodeEvent, NoteMint, NotePhase, ReserveMint, ReservePhase,
    TransactionError, TxContext, UnsignedTransaction,
};

const ADDRESS: &str = "9hzP24a2q8KLPVCUk7gdMDXYc7vinmGuxmLp5KU7k9UwptgYBYV";

fn fbox(id: &str, value: u64) -> FundingBox {
    FundingBox { box_id: id.to_string(), value }
}

fn contract(bytes: &[u8]) -> CompiledContract {
    CompiledContract::from_serialized(bytes.to_vec()).unwrap()
}

fn ctx(fee: u64) -> TxContext {
    TxContext::with_fee(100, ADDRESS.to_string(), fee).unwrap()
}

fn templates() -> ContractTemplates {
    ContractTemplates {
        reserve: "{ sigmaProp(true) }".to_string(),
        receipt: "{ val r = fromBase58(\"$reserveContractHash\"); sigmaProp(r.size > 0) }"
            .to_string(),
        note: "{ val r = \"$reserveContractHash\"; val c = \"$receiptContractHash\"; sigmaProp(true) }"
            .to_string(),
    }
}

fn selection(values: &[u64]) -> BoxSelection {
    let boxes: Vec<FundingBox> = values.iter().map(|v| fbox("b", *v)).collect();
    BoxSelection { boxes, change: 0 }
}

fn inputs_total(tx: &UnsignedTransaction) -> u128 {
    tx.inputs.iter().map(|b| b.value as u128).sum()
}

fn outputs_total(tx: &UnsignedTransaction) -> u128 {
    tx.outputs.iter().map(|o| o.value as u128).sum()
}

#[test]
fn substitute_replaces_every_placeholder() {
    let bindings = vec![
        Binding { name: "a".to_string(), value: "X".to_string() },
        Binding { name: "b_2".to_string(), value: "YY".to_string() },
    ];
    let r = substitute("p $a q $b_2$a.", &bindings).unwrap();
    assert_eq!(r, "p X q YYX.");
}

#[test]
fn substitute_keeps_lone_dollar() {
    let r = substitute("cost: $ 5 and $", &Vec::new()).unwrap();
    assert_eq!(r, "cost: $ 5 and $");
}

#[test]
fn substitute_first_binding_wins() {
    let bindings = vec![
        Binding { name: "a".to_string(), value: "1".to_string() },
        Binding { name: "a".to_string(), value: "2".to_string() },
    ];
    assert_eq!(substitute("$a", &bindings).unwrap(), "1");
}

#[test]
fn substitute_reports_unbound_placeholder() {
    let bindings = vec![Binding { name: "a".to_string(), value: "1".to_string() }];
    assert_eq!(substitute("$a $ab", &bindings), Err("ab".to_string()));
}

#[test]
fn template_lookup_by_kind() {
    let t = templates();
    assert_eq!(t.template("reserve").unwrap(), &t.reserve);
    assert_eq!(t.template("note").unwrap(), &t.note);
    assert!(matches!(
        t.template("bond"),
        Err(TransactionError::TemplateNotFound(k)) if k == "bond"
    ));
}

#[test]
fn receipt_source_without_reserve_reference_fails() {
    let t = templates();
    let r = substitute(&t.receipt, &Vec::new());
    assert_eq!(r, Err("reserveContractHash".to_string()));
}

#[test]
fn reference_is_base58_of_digest_without_header() {
    let r = address_of(&contract(&[0x10, 1, 2, 3]));
    assert_eq!(r.as_str(), "2CJY8hLfq3mmBQMVtSsZeajSgjeWf2zjGFrpqw4pDrty");
    let empty_body = address_of(&contract(&[0x10]));
    assert_eq!(empty_body.as_str(), "xyw95Bsby3s4mt6f4FmFDnFVpQBAeJxBFNGzu2cX4dM");
}

#[test]
fn reference_ignores_header_byte() {
    let a = address_of(&contract(&[0x10, 1, 2, 3]));
    let b = address_of(&contract(&[0x18, 1, 2, 3]));
    assert_eq!(a.as_str(), b.as_str());
}

#[test]
fn compiled_contract_needs_header() {
    assert!(CompiledContract::from_serialized(Vec::new()).is_none());
    assert_eq!(contract(&[0x10, 7]).as_bytes(), &[0x10, 7]);
}

#[test]
fn identical_templates_give_identical_references() {
    let t = templates();
    let reserve = address_of(&contract(&[0x10, 9, 9]));
    let first = t.receipt_source(&reserve).unwrap();
    let second = t.receipt_source(&reserve).unwrap();
    assert_eq!(first, second);
    let mut bytes_a = vec![0x10u8];
    bytes_a.extend_from_slice(first.as_bytes());
    let mut bytes_b = vec![0x10u8];
    bytes_b.extend_from_slice(second.as_bytes());
    assert_eq!(address_of(&contract(&bytes_a)).as_str(), address_of(&contract(&bytes_b)).as_str());

    let other_reserve = address_of(&contract(&[0x10, 9, 8]));
    let changed = t.receipt_source(&other_reserve).unwrap();
    assert_ne!(first, changed);
    let mut bytes_c = vec![0x10u8];
    bytes_c.extend_from_slice(changed.as_bytes());
    assert_ne!(address_of(&contract(&bytes_a)).as_str(), address_of(&contract(&bytes_c)).as_str());
}

#[test]
fn receipt_and_note_sources_embed_references() {
    let t = templates();
    let reserve = address_of(&contract(&[0x10, 1]));
    let receipt = address_of(&contract(&[0x10, 2]));
    let rs = t.receipt_source(&reserve).unwrap();
    assert_eq!(
        rs,
        format!("{{ val r = fromBase58(\"{}\"); sigmaProp(r.size > 0) }}", reserve.as_str())
    );
    let ns = t.note_source(&reserve, &receipt).unwrap();
    assert_eq!(
        ns,
        format!(
            "{{ val r = \"{}\"; val c = \"{}\"; sigmaProp(true) }}",
            reserve.as_str(),
            receipt.as_str()
        )
    );
    assert_eq!(t.reserve_source().unwrap(), t.reserve);
}

#[test]
fn reserve_source_with_placeholder_fails() {
    let mut t = templates();
    t.reserve = "$receiptContractHash".to_string();
    assert!(matches!(
        t.reserve_source(),
        Err(TransactionError::MissingBinding(n)) if n == "receiptContractHash"
    ));
}

#[test]
fn select_single_box_scenario() {
    let s = select_for(1_001_000, vec![fbox("a", 2_000_000)]).unwrap();
    assert_eq!(s.boxes.len(), 1);
    assert_eq!(s.boxes[0].value, 2_000_000);
    assert_eq!(s.change, 999_000);
}

#[test]
fn select_insufficient_scenario() {
    let r = select_for(1_001_000, vec![fbox("a", 200_000), fbox("b", 300_000)]);
    assert!(matches!(
        r,
        Err(TransactionError::InsufficientFunds { required: 1_001_000, available: 500_000 })
    ));
}

#[test]
fn select_takes_shortest_prefix_in_order() {
    let s = select_for(
        250,
        vec![fbox("a", 100), fbox("b", 100), fbox("c", 100), fbox("d", 1000)],
    )
    .unwrap();
    let ids: Vec<&str> = s.boxes.iter().map(|b| b.box_id.as_str()).collect();
    assert_eq!(ids, vec!["a", "b", "c"]);
    assert_eq!(s.change, 50);
}

#[test]
fn select_exact_total_has_no_change() {
    let s = select_for(300, vec![fbox("a", 100), fbox("b", 200)]).unwrap();
    assert_eq!(s.boxes.len(), 2);
    assert_eq!(s.change, 0);
}

#[test]
fn select_from_no_candidates_fails() {
    assert!(matches!(
        select_for(1, Vec::new()),
        Err(TransactionError::InsufficientFunds { required: 1, available: 0 })
    ));
}

#[test]
fn select_same_input_same_order() {
    let make = || vec![fbox("x", 5), fbox("y", 7), fbox("z", 9)];
    let a = select_for(10, make()).unwrap();
    let b = select_for(10, make()).unwrap();
    let ia: Vec<String> = a.boxes.iter().map(|b| b.box_id.clone()).collect();
    let ib: Vec<String> = b.boxes.iter().map(|b| b.box_id.clone()).collect();
    assert_eq!(ia, ib);
}

#[test]
fn build_reserve_scenario() {
    let tx = build_reserve(
        &MintReserveRequest { amount: 1_000_000 },
        contract(&[0x10, 1]),
        selection(&[2_000_000]),
        &ctx(1_000),
    )
    .unwrap();
    assert_eq!(tx.outputs.len(), 2);
    assert_eq!(tx.outputs[0].value, 1_000_000);
    assert!(matches!(&tx.outputs[0].guard, Guard::Contract(c) if c.as_bytes() == [0x10, 1]));
    assert_eq!(tx.outputs[0].minted_tokens, None);
    assert_eq!(tx.outputs[1].value, 999_000);
    assert!(matches!(&tx.outputs[1].guard, Guard::Address(a) if a == ADDRESS));
    assert_eq!(tx.fee, 1_000);
    assert_eq!(tx.height, 100);
    assert_eq!(tx.outputs[0].creation_height, 100);
    assert_eq!(inputs_total(&tx), outputs_total(&tx) + tx.fee as u128);
}

#[test]
fn build_reserve_exact_funds_no_change_output() {
    let tx = build_reserve(
        &MintReserveRequest { amount: 1_000_000 },
        contract(&[0x10, 1]),
        selection(&[600_000, 401_000]),
        &ctx(1_000),
    )
    .unwrap();
    assert_eq!(tx.outputs.len(), 1);
    assert_eq!(inputs_total(&tx), outputs_total(&tx) + tx.fee as u128);
}

#[test]
fn build_reserve_insufficient() {
    let r = build_reserve(
        &MintReserveRequest { amount: 1_000_000 },
        contract(&[0x10, 1]),
        selection(&[500_000]),
        &ctx(1_000),
    );
    assert!(matches!(
        r,
        Err(TransactionError::InsufficientFunds { required: 1_001_000, available: 500_000 })
    ));
}

#[test]
fn build_reserve_value_below_floor() {
    let r = build_reserve(
        &MintReserveRequest { amount: 10_799 },
        contract(&[0x10, 1]),
        selection(&[2_000_000]),
        &ctx(1_000),
    );
    assert!(matches!(r, Err(TransactionError::BoxValue(10_799))));
}

#[test]
fn build_reserve_value_at_floor() {
    let r = build_reserve(
        &MintReserveRequest { amount: 10_800 },
        contract(&[0x10, 1]),
        selection(&[21_600]),
        &ctx(0),
    )
    .unwrap();
    assert_eq!(r.outputs[1].value, 10_800);
}

#[test]
fn build_reserve_bad_change_address() {
    let bad = TxContext::with_fee(100, "not an address".to_string(), 1_000).unwrap();
    let r = build_reserve(
        &MintReserveRequest { amount: 1_000_000 },
        contract(&[0x10, 1]),
        selection(&[2_000_000]),
        &bad,
    );
    assert!(matches!(r, Err(TransactionError::Address(a)) if a == "not an address"));
}

#[test]
fn build_reserve_change_below_floor() {
    let r = build_reserve(
        &MintReserveRequest { amount: 1_000_000 },
        contract(&[0x10, 1]),
        selection(&[1_006_000]),
        &ctx(1_000),
    );
    assert!(matches!(r, Err(TransactionError::ChangeValue(5_000))));
}

#[test]
fn build_note_mints_tokens() {
    let tx = build_note(
        &MintNoteRequest { amount: 50 },
        contract(&[0x10, 3]),
        selection(&[3_000_000]),
        &ctx(1_100_000),
    )
    .unwrap();
    assert_eq!(tx.outputs[0].value, 1_000_000);
    assert_eq!(tx.outputs[0].minted_tokens, Some(50));
    assert_eq!(tx.outputs[1].value, 900_000);
    assert_eq!(inputs_total(&tx), outputs_total(&tx) + tx.fee as u128);
}

#[test]
fn build_note_zero_tokens() {
    let r = build_note(
        &MintNoteRequest { amount: 0 },
        contract(&[0x10, 3]),
        selection(&[3_000_000]),
        &ctx(1_000),
    );
    assert!(matches!(r, Err(TransactionError::TokenValue(0))));
}

#[test]
fn note_value_is_safe_minimum() {
    assert_eq!(note_box_value(), 1_000_000);
}

#[test]
fn context_uses_suggested_fee() {
    let c = TxContext::new(7, ADDRESS.to_string()).unwrap();
    assert_eq!(c.fee, 1_100_000);
    assert_eq!(c.current_height, 7);
    assert!(matches!(
        TxContext::new(7, String::new()),
        Err(TransactionError::ChangeAddress(_))
    ));
}

#[test]
fn reserve_mint_without_change_address_stops_before_selection() {
    let t = templates();
    let m = ReserveMint::new(MintReserveRequest { amount: 1_000_000 });
    let (m, a) = m.step(&t, NodeEvent::Begin);
    assert!(matches!(a, NodeAction::FetchContext));
    let (m, a) = m.step(&t, NodeEvent::Context { height: 5, change_address: String::new() });
    assert!(matches!(a, NodeAction::Fail(TransactionError::ChangeAddress(_))));
    assert!(matches!(m.phase, ReservePhase::Finished));
    let (_, a) = m.step(&t, NodeEvent::Boxes(vec![fbox("a", 5_000_000)]));
    assert!(matches!(a, NodeAction::Fail(TransactionError::OutOfOrder)));
}

#[test]
fn reserve_mint_full_run() {
    let t = templates();
    let m = ReserveMint::new(MintReserveRequest { amount: 1_000_000 });
    let (m, _) = m.step(&t, NodeEvent::Begin);
    let (m, a) = m.step(&t, NodeEvent::Context { height: 9, change_address: ADDRESS.to_string() });
    assert!(matches!(a, NodeAction::SelectBoxes(2_100_000)));
    let (m, a) = m.step(&t, NodeEvent::Boxes(vec![fbox("a", 2_000_000), fbox("b", 3_000_000)]));
    assert!(matches!(&a, NodeAction::Compile(s) if s == &t.reserve));
    let (m, a) = m.step(&t, NodeEvent::Compiled(contract(&[0x10, 4])));
    let tx = match a {
        NodeAction::Submit(tx) => tx,
        _ => panic!("expected a transaction"),
    };
    assert_eq!(tx.inputs.len(), 2);
    assert_eq!(tx.outputs[1].value, 2_900_000);
    assert_eq!(tx.height, 9);
    let (m, a) = m.step(&t, NodeEvent::Submitted("abc".to_string()));
    assert!(matches!(a, NodeAction::Done(id) if id == "abc"));
    assert!(matches!(m.phase, ReservePhase::Finished));
}

#[test]
fn reserve_mint_insufficient_funds() {
    let t = templates();
    let m = ReserveMint::new(MintReserveRequest { amount: 1_000_000 });
    let (m, _) = m.step(&t, NodeEvent::Begin);
    let (m, _) = m.step(&t, NodeEvent::Context { height: 9, change_address: ADDRESS.to_string() });
    let (_, a) = m.step(&t, NodeEvent::Boxes(vec![fbox("a", 500_000)]));
    assert!(matches!(a, NodeAction::Fail(TransactionError::InsufficientFunds { .. })));
}

#[test]
fn note_mint_resolves_references_in_order() {
    let t = templates();
    let m = NoteMint::new(MintNoteRequest { amount: 10 });
    let (m, a) = m.step(&t, NodeEvent::Begin);
    assert!(matches!(&a, NodeAction::Compile(s) if s == &t.reserve));
    let reserve_tree = contract(&[0x10, 1]);
    let reserve_ref = address_of(&reserve_tree);
    let (m, a) = m.step(&t, NodeEvent::Compiled(reserve_tree));
    let expected_receipt = t.receipt_source(&reserve_ref).unwrap();
    assert!(matches!(&a, NodeAction::Compile(s) if s == &expected_receipt));
    let receipt_tree = contract(&[0x10, 2]);
    let receipt_ref = address_of(&receipt_tree);
    let (m, a) = m.step(&t, NodeEvent::Compiled(receipt_tree));
    assert!(matches!(a, NodeAction::FetchContext));
    let (m, a) = m.step(&t, NodeEvent::Context { height: 3, change_address: ADDRESS.to_string() });
    assert!(matches!(a, NodeAction::SelectBoxes(2_100_000)));
    let (m, a) = m.step(&t, NodeEvent::Boxes(vec![fbox("a", 5_000_000)]));
    let expected_note = t.note_source(&reserve_ref, &receipt_ref).unwrap();
    assert!(matches!(&a, NodeAction::Compile(s) if s == &expected_note));
    let (m, a) = m.step(&t, NodeEvent::Compiled(contract(&[0x10, 3])));
    let tx = match a {
        NodeAction::Submit(tx) => tx,
        _ => panic!("expected a transaction"),
    };
    assert_eq!(tx.outputs[0].value, 1_000_000);
    assert_eq!(tx.outputs[0].minted_tokens, Some(10));
    assert_eq!(tx.outputs[1].value, 2_900_000);
    assert_eq!(inputs_total(&tx), outputs_total(&tx) + tx.fee as u128);
    let (m, a) = m.step(&t, NodeEvent::Submitted("id".to_string()));
    assert!(matches!(a, NodeAction::Done(_)));
    assert!(matches!(m.phase, NotePhase::Finished));
}

#[test]
fn note_mint_fails_when_receipt_lacks_reserve_binding() {
    let mut t = templates();
    t.receipt = "{ \"$reserveHash\" }".to_string();
    let m = NoteMint::new(MintNoteRequest { amount: 10 });
    let (m, _) = m.step(&t, NodeEvent::Begin);
    let (m, a) = m.step(&t, NodeEvent::Compiled(contract(&[0x10, 1])));
    assert!(matches!(a, NodeAction::Fail(TransactionError::MissingBinding(n)) if n == "reserveHash"));
    assert!(matches!(m.phase, NotePhase::Finished));
}

#[test]
fn note_mint_rejects_unasked_event() {
    let t = templates();
    let m = NoteMint::new(MintNoteRequest { amount: 10 });
    let (_, a) = m.step(&t, NodeEvent::Boxes(Vec::new()));
    assert!(matches!(a, NodeAction::Fail(TransactionError::OutOfOrder)));
}
