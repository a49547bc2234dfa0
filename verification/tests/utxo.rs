use abcf::utxo::{Config, Event1, UTXOModule};

struct U64Config;

impl Config for U64Config {
    type Ty = u64;
}

#[test]
fn check_tx_emits_event() {
    let mut m: UTXOModule<U64Config> = UTXOModule::new(5);
    let mut events: Vec<Event1> = Vec::new();
    assert!(m.check_tx(&mut events).is_ok());
    assert_eq!(events.len(), 1);
    assert!(m.check_tx(&mut events).is_ok());
    assert_eq!(events.len(), 2);
    assert_eq!(m.inner, 5);
}

#[test]
fn block_hooks_leave_module_unchanged() {
    let mut m: UTXOModule<U64Config> = UTXOModule::new(9);
    m.begin_block();
    assert!(m.deliver_tx().is_ok());
    m.end_block();
    assert_eq!(m.inner, 9);
}
