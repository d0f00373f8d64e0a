use game_bridge::module::GameModule;

type Setup = fn(&mut Vec<&'static str>);

fn install(app: &mut Vec<&'static str>) {
    app.push("installed");
}

#[test]
fn a_new_module_has_no_application() {
    let mut module: GameModule<Vec<&'static str>, Setup> = GameModule::new();
    assert!(module.get_app().is_none());
    assert!(module.update_app().is_none());
    assert!(module.init_plugins().is_none());
}

#[test]
fn destroying_without_an_application_is_harmless() {
    let mut module: GameModule<Vec<&'static str>, Setup> = GameModule::new();
    module.destroy_app();
    module.destroy_app();
    assert!(module.get_app().is_none());
}

#[test]
fn a_created_application_is_lent_out() {
    let mut module: GameModule<Vec<&'static str>, Setup> = GameModule::new();
    module.create_game_app(vec!["fresh"]);
    assert_eq!(module.get_app(), Some(&mut vec!["fresh"]));
    module.update_app().unwrap().push("frame");
    assert_eq!(module.get_app(), Some(&mut vec!["fresh", "frame"]));
}

#[test]
fn setup_needs_an_application_and_a_callback() {
    let mut module: GameModule<Vec<&'static str>, Setup> = GameModule::new();
    module.register_plugins(install);
    assert!(module.init_plugins().is_none());

    let mut bare: GameModule<Vec<&'static str>, Setup> = GameModule::new();
    bare.create_game_app(Vec::new());
    assert!(bare.init_plugins().is_none());
    assert_eq!(bare.get_app(), Some(&mut Vec::new()));

    module.create_game_app(Vec::new());
    match module.init_plugins() {
        Some((app, setup)) => setup(app),
        None => panic!("nothing to set up"),
    }
    assert_eq!(module.get_app(), Some(&mut vec!["installed"]));
}

#[test]
fn creating_again_replaces_the_application() {
    let mut module: GameModule<Vec<&'static str>, Setup> = GameModule::new();
    module.create_game_app(vec!["first"]);
    module.create_game_app(vec!["second"]);
    assert_eq!(module.get_app(), Some(&mut vec!["second"]));
}

#[test]
fn destroying_releases_the_application_and_keeps_the_callback() {
    let mut module: GameModule<Vec<&'static str>, Setup> = GameModule::new();
    module.register_plugins(install);
    module.create_game_app(Vec::new());
    module.destroy_app();
    assert!(module.get_app().is_none());
    assert!(module.update_app().is_none());
    assert!(module.init_plugins().is_none());
    module.create_game_app(Vec::new());
    assert!(module.init_plugins().is_some());
}

#[test]
fn registering_again_replaces_the_callback() {
    fn other(app: &mut Vec<&'static str>) {
        app.push("other");
    }
    let mut module: GameModule<Vec<&'static str>, Setup> = GameModule::new();
    module.register_plugins(install);
    module.register_plugins(other);
    module.create_game_app(Vec::new());
    if let Some((app, setup)) = module.init_plugins() {
        setup(app);
    }
    assert_eq!(module.get_app(), Some(&mut vec!["other"]));
}
