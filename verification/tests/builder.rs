use http_serve::builder::serve;
use tokio::net::TcpListener;

fn with_listener(test: impl FnOnce(TcpListener)) {
    let runtime = tokio::runtime::Builder::new_current_thread()
        .enable_io()
        .build()
        .unwrap();
    let listener = runtime.block_on(TcpListener::bind("127.0.0.1:0")).unwrap();
    let _guard = runtime.enter();
    test(listener);
}

#[test]
fn serve_sets_no_option() {
    with_listener(|listener| {
        let addr = listener.local_addr().unwrap();
        let s = serve::<u32, ()>(listener, 7);
        assert_eq!(s.nodelay(), None);
        assert_eq!(*s.make_service(), 7);
        assert_eq!(s.tcp_listener().local_addr().unwrap(), addr);
    });
}

#[test]
fn tcp_nodelay_sets_the_option_and_last_wins() {
    with_listener(|listener| {
        let addr = listener.local_addr().unwrap();
        let s = serve::<u32, ()>(listener, 7).tcp_nodelay(true);
        assert_eq!(s.nodelay(), Some(true));
        let (listener, service, nodelay) = s.tcp_nodelay(false).into_parts();
        assert_eq!(nodelay, Some(false));
        assert_eq!(service, 7);
        assert_eq!(listener.local_addr().unwrap(), addr);
    });
}

#[test]
fn graceful_shutdown_keeps_the_options() {
    with_listener(|listener| {
        let addr = listener.local_addr().unwrap();
        let s = serve::<u32, ()>(listener, 3)
            .tcp_nodelay(true)
            .with_graceful_shutdown(std::future::ready(()));
        assert_eq!(s.nodelay(), Some(true));
        assert_eq!(*s.make_service(), 3);
        let (listener, service, _signal, nodelay) = s.into_parts();
        assert_eq!(listener.local_addr().unwrap(), addr);
        assert_eq!(service, 3);
        assert_eq!(nodelay, Some(true));
    });
}

#[test]
fn nodelay_before_or_after_graceful_shutdown_agree() {
    with_listener(|listener| {
        let after = serve::<u32, ()>(listener, 1)
            .with_graceful_shutdown(std::future::ready(()))
            .tcp_nodelay(false);
        assert_eq!(after.nodelay(), Some(false));
        assert_eq!(*after.make_service(), 1);
    });
    with_listener(|listener| {
        let before = serve::<u32, ()>(listener, 1)
            .tcp_nodelay(false)
            .with_graceful_shutdown(std::future::ready(()));
        assert_eq!(before.nodelay(), Some(false));
        assert_eq!(*before.make_service(), 1);
    });
}
