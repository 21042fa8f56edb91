use yaiss::config::{Configuration, FileEventKind};
use yaiss::server::{
    drain_complete, poll_connection_count, ReloadOutcome, Server, DRAIN_POLL_SECS,
    GRACE_PERIOD_SECS,
};
use yaiss::server_handler::ServerHandler;

fn configuration_at(address: &str, port: &str) -> Configuration {
    let text = format!(
        "[DATABASE]\nurl=sqlite://sql/yaiss.db\nmigrations_path=sql/migrations\n\
         [SERVER]\naddress={}\nport={}\n\
         [IMAGE_SERVICE]\nbase_path=data\n",
        address, port
    );
    Configuration::new(text.as_str()).unwrap()
}

#[test]
fn start_and_stop() {
    let mut handler = ServerHandler::new(axum::Router::new());
    let task = handler.serve().expect("a stopped handler must hand out a bind task");
    assert_eq!(
        (task.address.octet_a, task.address.octet_b, task.address.octet_c, task.address.octet_d),
        (0, 0, 0, 0)
    );
    assert_eq!(task.address.port, 3000);

    // serving already: no second listener may come from the supervisor
    assert!(handler.serve().is_none());

    let drain = handler.stop().expect("a serving handler must hand out a drain");
    assert_eq!(drain.address.port, 3000);
    // nothing ever connected to this handle, so the drain poll may conclude
    // at its first reading
    assert!(drain_complete(poll_connection_count(&drain)));

    // stopped again: nothing to drain
    assert!(handler.stop().is_none());
}

#[test]
fn reload_with_same_address_is_a_no_op() {
    let configuration = configuration_at("0.0.0.0", "3000");
    let mut server = Server::new(axum::Router::new(), &configuration);
    server.serve().expect("bind task expected");
    let same = configuration_at("0.0.0.0", "3000");
    let outcome = server.reload(axum::Router::new(), &same);
    assert!(matches!(outcome, ReloadOutcome::Unchanged));
    // the listener was not disturbed: stopping still hands out the drain
    assert!(server.stop().is_some());
}

#[test]
fn reload_with_changed_port_drains_then_rebinds() {
    let configuration = configuration_at("0.0.0.0", "3000");
    let mut server = Server::new(axum::Router::new(), &configuration);
    server.serve().expect("bind task expected");
    let moved = configuration_at("0.0.0.0", "4000");
    match server.reload(axum::Router::new(), &moved) {
        ReloadOutcome::Rebound { drain, bind } => {
            let drain = drain.expect("the serving listener must be drained");
            assert_eq!(drain.address.port, 3000);
            assert_eq!(bind.address.port, 4000);
        },
        ReloadOutcome::Unchanged => panic!("an address change must rebind"),
    }
}

#[test]
fn reload_from_stopped_only_binds() {
    let configuration = configuration_at("127.0.0.1", "3000");
    let mut server = Server::new(axum::Router::new(), &configuration);
    let moved = configuration_at("127.0.0.1", "8080");
    match server.reload(axum::Router::new(), &moved) {
        ReloadOutcome::Rebound { drain, bind } => {
            assert!(drain.is_none());
            assert_eq!(bind.address.port, 8080);
            assert_eq!(
                (bind.address.octet_a, bind.address.octet_b, bind.address.octet_c,
                    bind.address.octet_d),
                (127, 0, 0, 1)
            );
        },
        ReloadOutcome::Unchanged => panic!("an address change must rebind"),
    }
}

#[test]
fn configuration_change_scenario() {
    // the configuration file's port moves from 3000 to 4000
    let before = configuration_at("0.0.0.0", "3000");
    let mut server = Server::new(axum::Router::new(), &before);
    server.serve().expect("bind task expected");

    // one content modification arrives among unrelated events; the change
    // notification answers it exactly once
    let events = vec![FileEventKind::Accessed, FileEventKind::ContentModified];
    assert_eq!(Configuration::has_change(&events), Some(1));

    let after = configuration_at("0.0.0.0", "4000");
    match server.reload(axum::Router::new(), &after) {
        ReloadOutcome::Rebound { drain, bind } => {
            assert_eq!(drain.expect("drain expected").address.port, 3000);
            assert_eq!(bind.address.port, 4000);
        },
        ReloadOutcome::Unchanged => panic!("a port change must rebind"),
    }

    // the supervisor now serves the new address alone
    assert!(server.serve().is_none());
    assert_eq!(server.stop().expect("drain expected").address.port, 4000);
}

#[test]
fn drain_concludes_exactly_at_zero_connections() {
    assert!(drain_complete(0));
    assert!(!drain_complete(1));
    assert!(!drain_complete(17));
}

#[test]
fn shutdown_timing_constants() {
    assert_eq!(GRACE_PERIOD_SECS, 3);
    assert_eq!(DRAIN_POLL_SECS, 1);
}

#[test]
fn handler_reload_moves_the_listener() {
    let mut handler = ServerHandler::new(axum::Router::new());
    handler.serve().expect("bind task expected");
    let moved = configuration_at("0.0.0.0", "4000");
    match handler.reload(&moved) {
        ReloadOutcome::Rebound { drain, bind } => {
            assert_eq!(drain.expect("drain expected").address.port, 3000);
            assert_eq!(bind.address.port, 4000);
        },
        ReloadOutcome::Unchanged => panic!("an address change must rebind"),
    }
    let same = configuration_at("0.0.0.0", "4000");
    assert!(matches!(handler.reload(&same), ReloadOutcome::Unchanged));
}
