use std::collections::HashMap;

use zsozso::controller::AppController;
use zsozso::graph::{GraphReply, GraphRequest, GraphStep, ANCESTOR_DEPTH};
use zsozso::state::WalletState;

/// A stand-in for the graph database, the camera and the key generator.
struct Graph {
    workers: HashMap<String, Vec<String>>,
    parents: HashMap<String, Vec<String>>,
    nicknames: HashMap<String, String>,
    addresses: HashMap<String, String>,
    relays: HashMap<String, String>,
    scanned: Result<String, String>,
    logs: Vec<String>,
}

impl Graph {
    fn new() -> Graph {
        Graph {
            workers: HashMap::new(),
            parents: HashMap::new(),
            nicknames: HashMap::new(),
            addresses: HashMap::new(),
            relays: HashMap::new(),
            scanned: Err("cancelled".to_string()),
            logs: Vec::new(),
        }
    }

    fn answer(&mut self, request: &GraphRequest) -> Option<GraphReply> {
        Some(match request {
            GraphRequest::Finished => return None,
            GraphRequest::ScanQr => GraphReply::Scanned(self.scanned.clone()),
            GraphRequest::AddWorker { node, worker } => {
                self.workers.entry(node.clone()).or_default().push(worker.clone());
                GraphReply::Written(Ok(()))
            }
            GraphRequest::GetWorkers { node } => GraphReply::Keys(Ok(self.workers.get(node).cloned().unwrap_or_default())),
            GraphRequest::GetAncestors { node, depth } => {
                assert_eq!(*depth, ANCESTOR_DEPTH);
                GraphReply::Keys(Ok(self.parents.get(node).cloned().unwrap_or_default()))
            }
            GraphRequest::GetNickname { node } => GraphReply::Lookup(Ok(self.nicknames.get(node).cloned())),
            GraphRequest::GetGunAddress { node } => GraphReply::Lookup(Ok(self.addresses.get(node).cloned())),
            GraphRequest::GetGunRelayUrl { node } => GraphReply::Lookup(Ok(self.relays.get(node).cloned())),
            GraphRequest::SetNickname { node, nickname } => {
                self.nicknames.insert(node.clone(), nickname.clone());
                GraphReply::Written(Ok(()))
            }
            GraphRequest::SetGunRelayUrl { node, url } => {
                self.relays.insert(node.clone(), url.clone());
                GraphReply::Written(Ok(()))
            }
            GraphRequest::SetGunAddress { node, address } => {
                self.addresses.insert(node.clone(), address.clone());
                GraphReply::Written(Ok(()))
            }
            GraphRequest::SeaPairFromSeed { passphrase } => GraphReply::SeaPair(Ok(format!("sea-{}", passphrase.len()))),
            GraphRequest::SplitSecret { secret, threshold, shares } => {
                assert_eq!((*threshold, *shares), (3, 7));
                GraphReply::Shares((0..*shares).map(|i| format!("{:02x}{}", i, secret.len())).collect())
            }
        })
    }
}

fn ready_wallet() -> AppController {
    let mut c = AppController::new(WalletState::new(true));
    c.generate_key(("GNODE".to_string(), "SNODE".to_string()));
    c.s.has_sea_key_pair = true;
    c
}

fn drain<F, S>(g: &mut Graph, mut flow: F, mut step: GraphStep, mut next: S) where S: FnMut(F, GraphReply) -> (F, GraphStep) {
    loop {
        g.logs.extend(step.logs.clone());
        let Some(reply) = g.answer(&step.request) else { break };
        let (f, s) = next(flow, reply);
        flow = f;
        step = s;
    }
}

#[test]
fn add_worker_needs_sea_pair_and_key() {
    let mut g = Graph::new();
    let mut c = AppController::new(WalletState::new(true));
    let (_, step) = c.add_worker_action();
    assert!(c.s.sea_modal_open);
    assert!(matches!(step.request, GraphRequest::Finished));
    assert_eq!(step.logs, vec!["[add_worker_action] No SEA keypair, opening modal".to_string()]);

    let mut c = AppController::new(WalletState::new(true));
    c.s.has_sea_key_pair = true;
    let (_, step) = c.add_worker_action();
    assert!(matches!(step.request, GraphRequest::Finished));
    assert!(c.s.ping_status.is_some());
    g.logs.extend(step.logs);
    assert_eq!(g.logs, vec!["[add_worker_action] No public key".to_string()]);
}

#[test]
fn add_worker_adds_and_reloads_hierarchy() {
    let mut g = Graph::new();
    g.scanned = Ok("GWORKERKEY0123456789ABCDEFGH".to_string());
    g.parents.insert("GNODE".to_string(), vec!["GPARENT".to_string()]);
    g.nicknames.insert("GPARENT".to_string(), "boss".to_string());
    let mut c = ready_wallet();
    let (flow, step) = c.add_worker_action();
    assert!(matches!(step.request, GraphRequest::ScanQr));
    drain(&mut g, flow, step, |f, r| c.add_worker_step(f, r));
    assert_eq!(g.workers.get("GNODE"), Some(&vec!["GWORKERKEY0123456789ABCDEFGH".to_string()]));
    assert_eq!(c.s.network_workers, vec!["GWORKERKEY0123456789ABCDEFGH".to_string()]);
    assert_eq!(c.s.network_parents, vec!["GPARENT".to_string()]);
    assert_eq!(c.s.network_nicknames, vec![("GPARENT".to_string(), "boss".to_string())]);
    assert_eq!(g.logs.last().map(String::as_str), Some("[add_worker_action] Network data reloaded"));
}

#[test]
fn cancelled_scan_adds_nothing() {
    let mut g = Graph::new();
    let mut c = ready_wallet();
    let (flow, step) = c.add_worker_action();
    drain(&mut g, flow, step, |f, r| c.add_worker_step(f, r));
    assert!(g.workers.is_empty());
    assert!(c.s.network_workers.is_empty());
}

#[test]
fn load_network_reads_hierarchy_and_settings() {
    let mut g = Graph::new();
    g.parents.insert("GNODE".to_string(), vec!["GP1".to_string(), "GP2".to_string()]);
    g.workers.insert("GNODE".to_string(), vec!["GW1".to_string()]);
    g.nicknames.insert("GNODE".to_string(), "me".to_string());
    g.nicknames.insert("GW1".to_string(), "worker one".to_string());
    g.addresses.insert("GNODE".to_string(), "sea-addr".to_string());
    g.relays.insert("GNODE".to_string(), "wss://relay".to_string());
    let mut c = ready_wallet();
    let (flow, step) = c.load_network_action();
    assert!(matches!(&step.request, GraphRequest::GetAncestors { node, .. } if node == "GNODE"));
    drain(&mut g, flow, step, |f, r| c.load_network_step(f, r));
    assert_eq!(c.s.network_parents, vec!["GP1".to_string(), "GP2".to_string()]);
    assert_eq!(c.s.network_workers, vec!["GW1".to_string()]);
    assert_eq!(c.s.nickname, "me");
    assert_eq!(c.s.gun_address, "sea-addr");
    assert_eq!(c.s.gun_relay_url, "wss://relay");
    assert_eq!(c.s.network_nicknames, vec![("GW1".to_string(), "worker one".to_string())]);
    assert_eq!(g.logs[0], "[load_network_action] Loading network data for pk=GNODE");
    assert!(g.logs.contains(&"[load_network_action] Got 2 ancestors".to_string()));
    assert!(g.logs.contains(&"[load_network_action] Got 1 workers".to_string()));
    assert_eq!(g.logs.last().map(String::as_str), Some("[load_network_action] Done"));
}

#[test]
fn load_network_without_key() {
    let mut c = AppController::new(WalletState::new(true));
    let (_, step) = c.load_network_action();
    assert!(matches!(step.request, GraphRequest::Finished));
    assert_eq!(step.logs, vec!["[load_network_action] No public key, skipping".to_string()]);
}

#[test]
fn nickname_and_relay_are_written() {
    let mut g = Graph::new();
    let mut c = ready_wallet();
    c.s.nickname = "alice".to_string();
    let (flow, step) = c.save_nickname_action();
    drain(&mut g, flow, step, |f, r| c.save_nickname_step(f, r));
    assert_eq!(g.nicknames.get("GNODE").map(String::as_str), Some("alice"));
    assert_eq!(g.logs[0], "[save_nickname_action] Saving nickname 'alice' for pk=GNODE");
    assert_eq!(g.logs[1], "[save_nickname_action] Nickname saved successfully");

    c.s.gun_relay_url = "wss://example/gun".to_string();
    g.logs.clear();
    let (flow, step) = c.save_gun_relay_action();
    drain(&mut g, flow, step, |f, r| c.save_gun_relay_step(f, r));
    assert_eq!(g.relays.get("GNODE").map(String::as_str), Some("wss://example/gun"));
    assert_eq!(g.logs, vec![
        "[save_gun_relay_action] Saving relay URL: wss://example/gun".to_string(),
        "[save_gun_relay_action] Relay URL saved successfully".to_string(),
    ]);
}

#[test]
fn nickname_write_without_sea_pair_opens_modal() {
    let mut c = AppController::new(WalletState::new(true));
    c.generate_key(("GNODE".to_string(), "SNODE".to_string()));
    let (_, step) = c.save_nickname_action();
    assert!(c.s.sea_modal_open);
    assert_eq!(step.logs, vec!["[save_nickname_action] No SEA keypair, opening modal".to_string()]);
}

#[test]
fn sea_keys_are_generated_stored_and_split() {
    let mut g = Graph::new();
    let mut c = AppController::new(WalletState::new(true));
    c.generate_key(("GNODE".to_string(), "SNODE".to_string()));
    c.open_sea_modal();
    c.s.sea_modal_input = "correct horse".to_string();
    let (flow, step) = c.generate_sea_keys();
    assert!(matches!(&step.request, GraphRequest::SeaPairFromSeed { passphrase } if passphrase == "correct horse"));
    drain(&mut g, flow, step, |f, r| c.generate_sea_keys_step(f, r));
    assert!(c.s.has_sea_key_pair);
    assert_eq!(c.s.gun_address, "sea-13");
    assert_eq!(g.addresses.get("GNODE").map(String::as_str), Some("sea-13"));
    assert_eq!(c.s.sss_shares.as_ref().map(Vec::len), Some(7));
    assert!(!c.s.sea_modal_open);
    assert_eq!(c.s.sea_modal_input, "");
    assert!(g.logs.contains(&"[generate_sea_keys] SSS shares generated: 7 shares, threshold 3".to_string()));
    c.dismiss_sss_modal();
    assert!(c.s.sss_shares.is_none());
}

#[test]
fn empty_passphrase_does_nothing() {
    let mut c = AppController::new(WalletState::new(true));
    let (_, step) = c.generate_sea_keys();
    assert!(matches!(step.request, GraphRequest::Finished));
    assert!(step.logs.is_empty());
}
