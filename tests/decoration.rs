use xdg_decoration::{
    AlreadyBound, AssociationTable, DecorationManager, DecorationRequest, Mode,
    XdgDecorationRequest,
};

#[test]
fn second_decoration_is_refused() {
    let mut m = DecorationManager::new();
    assert_eq!(
        m.get_toplevel_decoration(1, 10),
        Ok(XdgDecorationRequest::NewToplevelDecoration { toplevel: 10 })
    );
    assert_eq!(m.get_toplevel_decoration(2, 10), Err(AlreadyBound));
    assert!(m.is_active(1));
    assert!(!m.is_active(2));
    assert_eq!(m.decoration_of(10), Some(1));
}

#[test]
fn refused_object_relays_nothing() {
    let mut m = DecorationManager::new();
    m.get_toplevel_decoration(1, 10).unwrap();
    assert_eq!(m.get_toplevel_decoration(2, 10), Err(AlreadyBound));
    assert_eq!(m.request(2, DecorationRequest::UnsetMode), None);
    assert_eq!(
        m.request(2, DecorationRequest::SetMode { mode: Mode::ClientSide }),
        None
    );
}

#[test]
fn new_decoration_after_destroy() {
    let mut m = DecorationManager::new();
    m.get_toplevel_decoration(1, 10).unwrap();
    m.destroy(1);
    assert_eq!(m.decoration_of(10), None);
    assert_eq!(
        m.get_toplevel_decoration(2, 10),
        Ok(XdgDecorationRequest::NewToplevelDecoration { toplevel: 10 })
    );
    assert_eq!(m.decoration_of(10), Some(2));
}

#[test]
fn events_in_request_order() {
    let mut m = DecorationManager::new();
    let mut events = Vec::new();
    events.push(m.get_toplevel_decoration(5, 42).unwrap());
    events.extend(m.request(5, DecorationRequest::SetMode { mode: Mode::ServerSide }));
    events.extend(m.request(5, DecorationRequest::UnsetMode));
    assert_eq!(
        events,
        vec![
            XdgDecorationRequest::NewToplevelDecoration { toplevel: 42 },
            XdgDecorationRequest::SetMode { toplevel: 42, mode: Mode::ServerSide },
            XdgDecorationRequest::UnsetMode { toplevel: 42 },
        ]
    );
}

#[test]
fn destroy_twice() {
    let mut m = DecorationManager::new();
    m.get_toplevel_decoration(1, 10).unwrap();
    m.destroy(1);
    m.destroy(1);
    assert_eq!(m.decoration_of(10), None);
    assert!(!m.is_active(1));
    assert_eq!(m.request(1, DecorationRequest::UnsetMode), None);
}

#[test]
fn destroying_refused_object_keeps_binding() {
    let mut m = DecorationManager::new();
    m.get_toplevel_decoration(1, 10).unwrap();
    assert_eq!(m.get_toplevel_decoration(2, 10), Err(AlreadyBound));
    m.destroy(2);
    assert_eq!(m.decoration_of(10), Some(1));
    assert!(m.is_active(1));
}

#[test]
fn windows_are_independent() {
    let mut m = DecorationManager::new();
    m.get_toplevel_decoration(1, 10).unwrap();
    assert_eq!(
        m.get_toplevel_decoration(2, 11),
        Ok(XdgDecorationRequest::NewToplevelDecoration { toplevel: 11 })
    );
    assert_eq!(
        m.request(2, DecorationRequest::SetMode { mode: Mode::ClientSide }),
        Some(XdgDecorationRequest::SetMode { toplevel: 11, mode: Mode::ClientSide })
    );
    m.destroy(1);
    assert_eq!(m.decoration_of(11), Some(2));
}

#[test]
fn unknown_object_relays_nothing() {
    let m = DecorationManager::new();
    assert_eq!(m.request(3, DecorationRequest::UnsetMode), None);
    assert_eq!(m.decoration_of(3), None);
}

#[test]
fn table_bind_and_unbind() {
    let mut t = AssociationTable::new();
    assert_eq!(t.bind(1, 100), Ok(()));
    assert_eq!(t.bind(1, 200), Err(AlreadyBound));
    assert_eq!(t.get(1), Some(100));
    t.unbind(1);
    t.unbind(1);
    assert_eq!(t.get(1), None);
    assert_eq!(t.bind(1, 200), Ok(()));
    assert_eq!(t.get(1), Some(200));
}
