use dylib_mitm::loader::{LoadError, Loader, LoaderAction, LoaderEvent, LoaderState};
use dylib_mitm::reconcile::{reconcile, ReconciledPlan};
use dylib_mitm::symbols::{
    get_symbol_marker, slot_ident, stub_ident, NotLoaded, SlotValue, SymbolTable,
};

fn owned(names: &[&str]) -> Vec<String> {
    names.iter().map(|n| n.to_string()).collect()
}

fn plan() -> ReconciledPlan {
    reconcile(&owned(&["Init", "Render", "Shutdown"]), &owned(&["Render"])).unwrap()
}

fn advance(loader: &mut Loader, event: LoaderEvent) -> LoaderAction {
    let spare = Loader::new(&reconcile(&Vec::new(), &Vec::new()).unwrap(), "");
    let (next, action) = std::mem::replace(loader, spare).step(event);
    *loader = next;
    action
}

fn exports_of(table: &SymbolTable) -> Vec<String> {
    (0..table.len()).map(|i| table.slot(i).export.clone()).collect()
}

fn values_of(table: &SymbolTable) -> Vec<SlotValue> {
    (0..table.len()).map(|i| table.slot(i).value).collect()
}

#[test]
fn derived_names_carry_prefix_and_suffixes() {
    assert_eq!(slot_ident("Render"), "__Render");
    assert_eq!(slot_ident(""), "__");
    assert_eq!(get_symbol_marker("Render"), "Render_export_implementation");
    assert_eq!(stub_ident("Render"), "Render_stub_fn");
    assert_ne!(slot_ident("__a"), slot_ident("a"));
}

#[test]
fn declared_table_has_one_trapped_slot_per_export() {
    let table = SymbolTable::declare(&plan());
    assert_eq!(exports_of(&table), owned(&["Render", "Init", "Shutdown"]));
    assert_eq!(values_of(&table), vec![SlotValue::Trap; 3]);
    assert!(!table.is_loaded());
    assert_eq!(table.find("Init"), Some(1));
    assert_eq!(table.find("Present"), None);
}

#[test]
fn call_through_trapped_slot_fails_as_not_loaded() {
    let table = SymbolTable::declare(&plan());
    for name in ["Init", "Render", "Shutdown"] {
        assert_eq!(table.invoke(name), Some(Err(NotLoaded)));
    }
    assert_eq!(table.invoke("Present"), None);
    assert_eq!(SlotValue::Trap.invoke(), Err(NotLoaded));
    assert_eq!(SlotValue::Resolved(0x7000).invoke(), Ok(0x7000));
    assert_eq!(NotLoaded.message(), "library was not loaded yet");
}

#[test]
fn empty_plan_declares_empty_table_that_counts_as_loaded() {
    let plan = reconcile(&Vec::new(), &Vec::new()).unwrap();
    let table = SymbolTable::declare(&plan);
    assert_eq!(table.len(), 0);
    assert!(table.is_loaded());
}

#[test]
fn successful_load_resolves_every_slot() {
    let mut loader = Loader::new(&plan(), "C:\\real\\d3d9.dll");
    assert_eq!(loader.state(), LoaderState::Idle);
    assert!(matches!(
        advance(&mut loader, LoaderEvent::Start),
        LoaderAction::Open { path } if path == "C:\\real\\d3d9.dll"
    ));
    assert_eq!(loader.state(), LoaderState::Opening);
    assert!(matches!(
        advance(&mut loader, LoaderEvent::Opened),
        LoaderAction::Resolve { export } if export == "Render"
    ));
    assert_eq!(loader.state(), LoaderState::Resolving);
    assert!(matches!(
        advance(&mut loader, LoaderEvent::Resolved { address: 0x1000 }),
        LoaderAction::Resolve { export } if export == "Init"
    ));
    assert_eq!(values_of(loader.table()), vec![SlotValue::Trap; 3]);
    assert!(matches!(
        advance(&mut loader, LoaderEvent::Resolved { address: 0x2000 }),
        LoaderAction::Resolve { export } if export == "Shutdown"
    ));
    assert_eq!(values_of(loader.table()), vec![SlotValue::Trap; 3]);
    assert!(matches!(
        advance(&mut loader, LoaderEvent::Resolved { address: 0x3000 }),
        LoaderAction::Done
    ));
    assert_eq!(loader.state(), LoaderState::Ready);
    assert!(loader.table().is_loaded());
    assert_eq!(
        values_of(loader.table()),
        vec![SlotValue::Resolved(0x1000), SlotValue::Resolved(0x2000), SlotValue::Resolved(0x3000)]
    );
    assert_eq!(loader.table().invoke("Render"), Some(Ok(0x1000)));
    assert_eq!(loader.table().invoke("Init"), Some(Ok(0x2000)));
    assert_eq!(loader.table().invoke("Shutdown"), Some(Ok(0x3000)));
    assert_eq!(exports_of(loader.table()), owned(&["Render", "Init", "Shutdown"]));
}

#[test]
fn unreachable_library_is_fatal_and_mutates_no_slot() {
    let mut loader = Loader::new(&plan(), "/nowhere/real.dll");
    advance(&mut loader, LoaderEvent::Start);
    match advance(&mut loader, LoaderEvent::OpenFailed { reason: "cannot open".to_string() }) {
        LoaderAction::Fatal(e @ LoadError::Open { .. }) => {
            assert_eq!(e.message(), "Failed to load library `/nowhere/real.dll`: cannot open");
            match e {
                LoadError::Open { path, reason } => {
                    assert_eq!(path, "/nowhere/real.dll");
                    assert_eq!(reason, "cannot open");
                }
                _ => unreachable!(),
            }
        }
        other => panic!("unexpected: {:?}", other),
    }
    assert_eq!(loader.state(), LoaderState::Failed);
    assert_eq!(values_of(loader.table()), vec![SlotValue::Trap; 3]);
    assert_eq!(loader.table().invoke("Init"), Some(Err(NotLoaded)));
}

#[test]
fn missing_symbol_is_fatal_and_leaves_every_slot_trapped() {
    let mut loader = Loader::new(&plan(), "real.dll");
    advance(&mut loader, LoaderEvent::Start);
    advance(&mut loader, LoaderEvent::Opened);
    advance(&mut loader, LoaderEvent::Resolved { address: 0x1000 });
    match advance(&mut loader, LoaderEvent::Missing { reason: "no such symbol".to_string() }) {
        LoaderAction::Fatal(e @ LoadError::Symbol { .. }) => {
            assert_eq!(e.message(), "Failed to get symbol `Init`: no such symbol");
        }
        other => panic!("unexpected: {:?}", other),
    }
    assert_eq!(loader.state(), LoaderState::Failed);
    assert_eq!(values_of(loader.table()), vec![SlotValue::Trap; 3]);
    assert!(matches!(advance(&mut loader, LoaderEvent::Start), LoaderAction::Rejected));
    assert!(matches!(
        advance(&mut loader, LoaderEvent::Resolved { address: 0x2000 }),
        LoaderAction::Rejected
    ));
    assert_eq!(loader.state(), LoaderState::Failed);
    assert_eq!(values_of(loader.table()), vec![SlotValue::Trap; 3]);
}

#[test]
fn reports_out_of_turn_are_rejected_and_change_nothing() {
    let mut loader = Loader::new(&plan(), "real.dll");
    assert!(matches!(advance(&mut loader, LoaderEvent::Opened), LoaderAction::Rejected));
    assert!(matches!(
        advance(&mut loader, LoaderEvent::Resolved { address: 0x1 }),
        LoaderAction::Rejected
    ));
    assert_eq!(loader.state(), LoaderState::Idle);
    advance(&mut loader, LoaderEvent::Start);
    assert!(matches!(advance(&mut loader, LoaderEvent::Start), LoaderAction::Rejected));
    assert!(matches!(
        advance(&mut loader, LoaderEvent::Missing { reason: String::new() }),
        LoaderAction::Rejected
    ));
    assert_eq!(loader.state(), LoaderState::Opening);
    advance(&mut loader, LoaderEvent::Opened);
    assert!(matches!(advance(&mut loader, LoaderEvent::Opened), LoaderAction::Rejected));
    assert!(matches!(
        advance(&mut loader, LoaderEvent::OpenFailed { reason: String::new() }),
        LoaderAction::Rejected
    ));
    assert_eq!(loader.state(), LoaderState::Resolving);
    assert_eq!(values_of(loader.table()), vec![SlotValue::Trap; 3]);
}

#[test]
fn second_initialisation_changes_nothing() {
    let plan = reconcile(&owned(&["only"]), &Vec::new()).unwrap();
    let mut loader = Loader::new(&plan, "real.dll");
    advance(&mut loader, LoaderEvent::Start);
    advance(&mut loader, LoaderEvent::Opened);
    assert!(matches!(advance(&mut loader, LoaderEvent::Resolved { address: 0 }), LoaderAction::Done));
    assert_eq!(values_of(loader.table()), vec![SlotValue::Resolved(0)]);
    assert!(matches!(advance(&mut loader, LoaderEvent::Start), LoaderAction::Rejected));
    assert!(matches!(
        advance(&mut loader, LoaderEvent::Resolved { address: 0x99 }),
        LoaderAction::Rejected
    ));
    assert_eq!(loader.state(), LoaderState::Ready);
    assert_eq!(values_of(loader.table()), vec![SlotValue::Resolved(0)]);
}

#[test]
fn library_without_exports_is_ready_once_opened() {
    let plan = reconcile(&Vec::new(), &Vec::new()).unwrap();
    let mut loader = Loader::new(&plan, "real.dll");
    advance(&mut loader, LoaderEvent::Start);
    assert!(matches!(advance(&mut loader, LoaderEvent::Opened), LoaderAction::Done));
    assert_eq!(loader.state(), LoaderState::Ready);
    assert_eq!(loader.table().len(), 0);
}
