use std::collections::HashMap;

use zsozso::controller::{AppController, PasskeyOutcome};
use zsozso::flows::{LoadAllFlow, LoadFlow, Reply, Request, SaveAllFlow, SaveFlow, Step};
use zsozso::language::NetworkEnvironment;
use zsozso::state::WalletState;

/// A stand-in for the browser: a secret store, a passkey with a PRF key, reversible
/// encryption and a ledger that derives public keys.
struct World {
    store: HashMap<String, String>,
    logs: Vec<String>,
    passkey_works: bool,
}

impl World {
    fn new() -> World {
        World { store: HashMap::new(), logs: Vec::new(), passkey_works: true }
    }

    fn answer(&mut self, request: &Request) -> Option<Reply> {
        match request {
            Request::Finished => None,
            Request::PasskeyInit => Some(Reply::Passkey(if self.passkey_works {
                PasskeyOutcome::Done { success: true, prf_key: Some("prf".to_string()), error: None }
            } else {
                PasskeyOutcome::Failed("no passkey".to_string())
            })),
            Request::Encrypt { data, prf_key } => Some(Reply::Text(Ok(format!("enc[{}]{}", prf_key, data)))),
            Request::Decrypt { data, prf_key } => {
                let prefix = format!("enc[{}]", prf_key);
                Some(Reply::Text(match data.strip_prefix(prefix.as_str()) {
                    Some(plain) => Ok(plain.to_string()),
                    None => Err("cannot decrypt".to_string()),
                }))
            }
            Request::StoreSave { store, data } => {
                self.store.insert(store.account.to_string(), data.clone());
                Some(Reply::Saved(Ok(())))
            }
            Request::StoreLoad { store } => Some(Reply::Text(match self.store.get(store.account) {
                Some(d) => Ok(d.clone()),
                None => Err("not found".to_string()),
            })),
            Request::DerivePublicKey { secret, .. } => Some(Reply::PublicKey(if secret.starts_with('S') {
                Some(format!("G{}", &secret[1..]))
            } else {
                None
            })),
        }
    }

    fn save(&mut self, c: &mut AppController, localhost: bool) {
        let (mut flow, mut step): (SaveFlow, Step) = c.save_to_store(localhost);
        loop {
            self.logs.extend(step.logs.clone());
            let Some(reply) = self.answer(&step.request) else { break };
            let (f, s) = c.save_to_store_step(flow, reply);
            flow = f;
            step = s;
        }
    }

    fn load(&mut self, c: &mut AppController, localhost: bool) {
        let (mut flow, mut step): (LoadFlow, Step) = c.load_from_store(localhost);
        loop {
            self.logs.extend(step.logs.clone());
            let Some(reply) = self.answer(&step.request) else { break };
            let (f, s) = c.load_from_store_step(flow, reply);
            flow = f;
            step = s;
        }
    }

    fn save_all(&mut self, c: &mut AppController, localhost: bool) {
        let (mut flow, mut step): (SaveAllFlow, Step) = c.save_all_to_store(localhost);
        loop {
            self.logs.extend(step.logs.clone());
            let Some(reply) = self.answer(&step.request) else { break };
            let (f, s) = c.save_all_to_store_step(flow, reply);
            flow = f;
            step = s;
        }
    }

    fn load_all(&mut self, c: &mut AppController, localhost: bool) {
        let (mut flow, mut step): (LoadAllFlow, Step) = c.load_all_from_store(localhost);
        loop {
            self.logs.extend(step.logs.clone());
            let Some(reply) = self.answer(&step.request) else { break };
            let (f, s) = c.load_all_from_store_step(flow, reply);
            flow = f;
            step = s;
        }
    }
}

fn with_key(net: NetworkEnvironment) -> AppController {
    let mut c = AppController::new(WalletState::new(true));
    if net == NetworkEnvironment::Test {
        c.toggle_network();
    }
    c.generate_key(("GKEY".to_string(), "SKEY".to_string()));
    c
}

#[test]
fn saved_secret_is_stored_with_network_prefix() {
    let mut world = World::new();
    let mut c = with_key(NetworkEnvironment::Test);
    world.save(&mut c, true);
    assert_eq!(world.store.get("default_account").map(String::as_str), Some("tn:SKEY"));
    assert_eq!(world.logs, vec!["✅ Successfully saved to system wallet!".to_string()]);
}

#[test]
fn what_is_saved_is_loaded_on_localhost() {
    let mut world = World::new();
    let mut c = with_key(NetworkEnvironment::Test);
    world.save(&mut c, true);
    let mut fresh = AppController::new(WalletState::new(true));
    assert_eq!(fresh.s.current_network, NetworkEnvironment::Production);
    world.load(&mut fresh, true);
    assert_eq!(fresh.s.current_network, NetworkEnvironment::Test);
    assert_eq!(fresh.s.secret_key_hidden.as_deref(), Some("SKEY"));
    assert_eq!(fresh.s.public_key.as_deref(), Some("GKEY"));
    assert_eq!(fresh.s.testnet_public_key.as_deref(), Some("GKEY"));
}

#[test]
fn what_is_saved_is_loaded_with_passkey_encryption() {
    let mut world = World::new();
    let mut c = with_key(NetworkEnvironment::Production);
    world.save(&mut c, false);
    assert_eq!(world.store.get("default_account").map(String::as_str), Some("enc[prf]mn:SKEY"));
    assert_eq!(c.s.prf_key.as_deref(), Some("prf"));
    let mut fresh = AppController::new(WalletState::new(true));
    fresh.toggle_network();
    world.load(&mut fresh, false);
    assert_eq!(fresh.s.current_network, NetworkEnvironment::Production);
    assert_eq!(fresh.s.secret_key_hidden.as_deref(), Some("SKEY"));
    assert_eq!(fresh.s.mainnet_public_key.as_deref(), Some("GKEY"));
}

#[test]
fn saving_refused_without_biometric() {
    let mut world = World::new();
    let mut c = AppController::new(WalletState::new(false));
    c.generate_key(("GKEY".to_string(), "SKEY".to_string()));
    world.save(&mut c, false);
    assert!(c.s.biometric_save_modal_open);
    assert!(world.store.is_empty());
    assert!(world.logs.is_empty());
}

#[test]
fn nothing_to_save() {
    let mut world = World::new();
    let mut c = AppController::new(WalletState::new(true));
    world.save(&mut c, true);
    assert!(world.store.is_empty());
    assert_eq!(world.logs, vec!["⚠️ Nothing to save (key is empty)!".to_string()]);
}

#[test]
fn failed_passkey_stops_the_save() {
    let mut world = World::new();
    world.passkey_works = false;
    let mut c = with_key(NetworkEnvironment::Production);
    world.save(&mut c, false);
    assert!(world.store.is_empty());
    assert_eq!(world.logs, vec!["❌ no passkey".to_string()]);
}

#[test]
fn legacy_unprefixed_secret_loads_on_current_network() {
    let mut world = World::new();
    world.store.insert("default_account".to_string(), "SOLD".to_string());
    let mut c = AppController::new(WalletState::new(true));
    c.toggle_network();
    world.load(&mut c, true);
    assert_eq!(c.s.current_network, NetworkEnvironment::Test);
    assert_eq!(c.s.secret_key_hidden.as_deref(), Some("SOLD"));
    assert_eq!(world.logs[0], "🔍 Loading started...");
    assert_eq!(world.logs[1], "📥 Key loaded, length: 4");
    assert_eq!(world.logs[2], "✨ UI successfully updated with loaded key.");
}

#[test]
fn both_network_keys_survive_save_all_and_load_all() {
    let mut world = World::new();
    let mut c = AppController::new(WalletState::new(true));
    c.generate_key_for_network(NetworkEnvironment::Production, ("GMAIN".to_string(), "SMAIN".to_string()));
    c.generate_key_for_network(NetworkEnvironment::Test, ("GTEST".to_string(), "STEST".to_string()));
    world.save_all(&mut c, false);
    assert_eq!(world.store.get("mainnet_account").map(String::as_str), Some("enc[prf]SMAIN"));
    assert_eq!(world.store.get("testnet_account").map(String::as_str), Some("enc[prf]STEST"));
    assert!(world.logs.contains(&"[save_all] Mainnet key saved".to_string()));
    assert!(world.logs.contains(&"[save_all] Testnet key saved".to_string()));

    let mut fresh = AppController::new(WalletState::new(true));
    world.logs.clear();
    world.load_all(&mut fresh, false);
    assert_eq!(fresh.s.mainnet_secret_key.as_deref(), Some("SMAIN"));
    assert_eq!(fresh.s.testnet_secret_key.as_deref(), Some("STEST"));
    assert_eq!(fresh.s.mainnet_public_key.as_deref(), Some("GMAIN"));
    assert_eq!(fresh.s.testnet_public_key.as_deref(), Some("GTEST"));
    assert_eq!(fresh.s.public_key.as_deref(), Some("GMAIN"));
    assert_eq!(fresh.s.secret_key_hidden.as_deref(), Some("SMAIN"));
    assert!(world.logs.contains(&"[load_all] Mainnet key loaded".to_string()));
    assert!(world.logs.contains(&"[load_all] Testnet key loaded".to_string()));
}

#[test]
fn load_all_migrates_legacy_key() {
    let mut world = World::new();
    world.store.insert("default_account".to_string(), "tn:SLEG".to_string());
    let mut c = AppController::new(WalletState::new(true));
    world.load_all(&mut c, true);
    assert_eq!(c.s.testnet_secret_key.as_deref(), Some("SLEG"));
    assert_eq!(c.s.testnet_public_key.as_deref(), Some("GLEG"));
    assert!(c.s.mainnet_secret_key.is_none());
    assert_eq!(c.s.public_key.as_deref(), Some("GLEG"));
    assert!(world.logs.contains(&"[load_all] Migrated legacy key as testnet".to_string()));
}

#[test]
fn save_then_switch() {
    let mut world = World::new();
    let mut c = with_key(NetworkEnvironment::Production);
    c.toggle_network();
    let (mut flow, mut step) = c.confirm_network_switch_save(true);
    assert_eq!(c.s.current_network, NetworkEnvironment::Test);
    loop {
        let Some(reply) = world.answer(&step.request) else { break };
        let (f, s) = c.save_to_store_step(flow, reply);
        flow = f;
        step = s;
    }
    assert_eq!(world.store.get("default_account").map(String::as_str), Some("mn:SKEY"));
}

#[test]
fn switch_then_save() {
    let mut world = World::new();
    let mut c = with_key(NetworkEnvironment::Production);
    c.toggle_network();
    let (mut flow, mut step) = c.confirm_network_switch_and_save(true);
    assert_eq!(c.s.current_network, NetworkEnvironment::Test);
    loop {
        let Some(reply) = world.answer(&step.request) else { break };
        let (f, s) = c.save_to_store_step(flow, reply);
        flow = f;
        step = s;
    }
    assert_eq!(world.store.get("default_account").map(String::as_str), Some("tn:SKEY"));
}

#[test]
fn load_all_with_only_a_testnet_key_makes_it_active() {
    let mut world = World::new();
    world.store.insert("testnet_account".to_string(), "STONLY".to_string());
    let mut c = AppController::new(WalletState::new(true));
    world.load_all(&mut c, true);
    assert!(c.s.mainnet_public_key.is_none());
    assert_eq!(c.s.testnet_public_key.as_deref(), Some("GTONLY"));
    assert_eq!(c.s.public_key.as_deref(), Some("GTONLY"));
    assert_eq!(c.s.secret_key_hidden.as_deref(), Some("STONLY"));
}
