use mpac_rs::v3::access_flag::{apply_rule, AccessFlag, FlagState, Identity, Status, Transition};

#[test]
fn preserves_identity() {
    let init_ident = Identity::Node;
    let node = AccessFlag::new(&init_ident);
    let guard = loop {
        match node.try_access() {
            Ok(g) => break g,
            Err(_) => {}
        }
    };
    assert_eq!(init_ident, node.identity());
    guard.release();
    drop(guard);
    assert_eq!(init_ident, node.identity());
    while let Err(_) = node.try_take() {}
    assert_eq!(init_ident, node.identity());
}

#[test]
fn valid_status_lifecycle() {
    let init_ident = Identity::Node;
    let node = AccessFlag::new(&init_ident);
    assert_eq!(Status::Released, node.status());

    let guard = node
        .try_access()
        .expect("could not access flag while released");
    assert_eq!(Status::Accessed, node.status());

    guard.release();
    drop(guard);
    assert_eq!(Status::Released, node.status());

    node.try_take().expect("could not take flag while released");
    assert_eq!(Status::Taken, node.status());
}

#[test]
fn blocks_access() {
    let init_ident = Identity::Node;
    let node = AccessFlag::new(&init_ident);

    let guard = node
        .try_access()
        .expect("could not access flag while released");

    assert!(node.try_access().is_err());

    guard.release();
    drop(guard);

    assert!(node.try_access().is_ok());
}

#[test]
fn front_and_back_keep_their_identity() {
    let front = AccessFlag::new(&Identity::Front);
    let back = AccessFlag::new(&Identity::Back);
    assert_eq!(Identity::Front, front.identity());
    assert_eq!(Identity::Back, back.identity());
    let g = front.try_access().unwrap();
    assert_eq!(Status::Accessed, front.status());
    assert_eq!(Identity::Front, front.identity());
    g.release();
    assert_eq!(Status::Released, front.status());
    assert_eq!(Status::Released, back.status());
}

#[test]
fn declared_take_blocks_access_and_second_declaration() {
    let node = AccessFlag::new(&Identity::Node);
    assert_eq!(Ok(()), node.try_declare_take());
    assert_eq!(Status::DeclareTake, node.status());
    assert_eq!(Some(Status::DeclareTake), node.try_access().err());
    assert_eq!(Err(Status::DeclareTake), node.try_declare_take());
    assert_eq!(Ok(()), node.try_take());
    assert_eq!(Status::Taken, node.status());
}

#[test]
fn declaration_refused_while_accessed() {
    let node = AccessFlag::new(&Identity::Node);
    let g = node.try_access().unwrap();
    assert_eq!(Err(Status::Accessed), node.try_declare_take());
    assert_eq!(Err(Status::Accessed), node.try_take());
    g.release();
    assert_eq!(Ok(()), node.try_declare_take());
}

#[test]
fn taken_flag_refuses_everything() {
    let node = AccessFlag::new(&Identity::Node);
    node.try_take().unwrap();
    assert_eq!(Some(Status::Taken), node.try_access().err());
    assert_eq!(Err(Status::Taken), node.try_declare_take());
    assert_eq!(Err(Status::Taken), node.try_take());
    assert_eq!(Status::Taken, node.status());
    assert_eq!(Identity::Node, node.identity());
}

#[test]
fn release_twice_is_harmless() {
    let node = AccessFlag::new(&Identity::Back);
    let g = node.try_access().unwrap();
    g.release();
    g.release();
    assert_eq!(Status::Released, node.status());
}

#[test]
fn fresh_flag_state_grants_access_once() {
    let mut f = FlagState::new(&Identity::Node);
    assert_eq!(Identity::Node, f.identity());
    assert_eq!(Status::Released, f.status());
    assert_eq!(Ok(()), f.try_access());
    assert_eq!(Status::Accessed, f.status());
    assert_eq!(Err(Status::Accessed), f.try_access());
    assert_eq!(Err(Status::Accessed), f.try_declare_take());
    assert_eq!(Err(Status::Accessed), f.try_take());
    f.release();
    assert_eq!(Status::Released, f.status());
    f.release();
    assert_eq!(Status::Released, f.status());
    assert_eq!(Identity::Node, f.identity());
}

#[test]
fn flag_state_declare_then_take() {
    let mut f = FlagState::new(&Identity::Node);
    assert_eq!(Ok(()), f.try_declare_take());
    assert_eq!(Status::DeclareTake, f.status());
    assert_eq!(Err(Status::DeclareTake), f.try_access());
    assert_eq!(Ok(()), f.try_take());
    assert_eq!(Status::Taken, f.status());
    assert_eq!(Identity::Node, f.identity());
}

#[test]
fn flag_state_take_from_released() {
    let mut f = FlagState::new(&Identity::Node);
    assert_eq!(Ok(()), f.try_take());
    assert_eq!(Status::Taken, f.status());
}

#[test]
fn flag_state_steps_keep_front_and_back() {
    let mut front = FlagState::new(&Identity::Front);
    let back = FlagState::new(&Identity::Back);
    assert_eq!(Identity::Front, front.identity());
    assert_eq!(Identity::Back, back.identity());
    assert_eq!(Ok(()), front.step(Transition::Access));
    assert_eq!(Identity::Front, front.identity());
    assert_eq!(Status::Accessed, front.status());
    assert_eq!(Ok(()), front.step(Transition::Release));
    assert_eq!(Status::Released, front.status());
}

#[test]
fn transition_table() {
    assert_eq!((Status::Accessed, Ok(())), apply_rule(Transition::Access, Status::Released));
    assert_eq!((Status::Taken, Err(Status::Taken)), apply_rule(Transition::Access, Status::Taken));
    assert_eq!((Status::DeclareTake, Ok(())), apply_rule(Transition::DeclareTake, Status::Released));
    assert_eq!((Status::Taken, Ok(())), apply_rule(Transition::Take, Status::DeclareTake));
    assert_eq!((Status::Accessed, Err(Status::Accessed)), apply_rule(Transition::Take, Status::Accessed));
    assert_eq!((Status::Released, Ok(())), apply_rule(Transition::Release, Status::Accessed));
    assert_eq!((Status::Taken, Ok(())), apply_rule(Transition::Release, Status::Taken));
}
