use yaiss::config::Configuration;
use yaiss::process::{dispatch, LoopDirective, ProcessEvent};
use yaiss::server::{drain_complete, poll_connection_count, Server};

#[test]
fn signals_end_the_loop_and_changes_do_not() {
    assert_eq!(dispatch(&ProcessEvent::SigTerm), LoopDirective::ExitAndStop);
    assert_eq!(dispatch(&ProcessEvent::SigInt), LoopDirective::ExitAndStop);
    assert_eq!(dispatch(&ProcessEvent::ConfigChanged), LoopDirective::ReloadAndContinue);
}

#[test]
fn sigterm_drains_before_exit() {
    let text = "[DATABASE]\nurl=a\nmigrations_path=b\n\
                [SERVER]\naddress=0.0.0.0\nport=3000\n\
                [IMAGE_SERVICE]\nbase_path=data\n";
    let configuration = Configuration::new(text).unwrap();
    let mut server = Server::new(axum::Router::new(), &configuration);
    server.serve().expect("bind task expected");

    // the signal arrives: the loop exits within this iteration
    assert_eq!(dispatch(&ProcessEvent::SigTerm), LoopDirective::ExitAndStop);

    // exactly one final stop drains the listener before the process ends;
    // a supervisor without a handle accepts nothing further
    let drain = server.stop().expect("the serving listener must be drained");
    assert!(drain_complete(poll_connection_count(&drain)));
    assert!(server.stop().is_none());
}
