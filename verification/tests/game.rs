use idc_launcher::game::{
    game_directory, launch_plan, LaunchAction, LaunchEvent, LaunchFlow, LaunchPlan,
    MINECRAFT_VERSION, NEOFORGE_VERSION, NO_USER_DIR,
};

fn under(base: &str) -> String {
    std::path::Path::new(base).join("idc-launcher").to_string_lossy().into_owned()
}

fn plan(dir: &str, user: &str) -> LaunchPlan {
    LaunchPlan {
        game_dir: dir.to_string(),
        username: user.to_string(),
        minecraft_version: "1.21.1".to_string(),
        neoforge_version: "21.1.232".to_string(),
    }
}

#[test]
fn game_directory_under_base() {
    assert_eq!(game_directory(Some("/home/steve".to_string())), Ok(under("/home/steve")));
    assert_eq!(game_directory(Some("/home/steve/".to_string())), Ok(under("/home/steve/")));
    assert!(under("/home/steve").ends_with("idc-launcher"));
}

#[test]
fn game_directory_without_base() {
    assert_eq!(game_directory(None), Err("Impossible de déterminer le dossier utilisateur".to_string()));
    assert_eq!(NO_USER_DIR, "Impossible de déterminer le dossier utilisateur");
}

#[test]
fn launch_plan_versions() {
    assert_eq!(MINECRAFT_VERSION, "1.21.1");
    assert_eq!(NEOFORGE_VERSION, "21.1.232");
    assert_eq!(launch_plan("/g", "steve"), plan("/g", "steve"));
}

#[test]
fn launch_runs_to_a_clean_exit() {
    let (mut flow, first) = LaunchFlow::start("steve");
    assert_eq!(first, LaunchAction::Sync);
    assert_eq!(flow.step(LaunchEvent::Synced(Ok(()))), LaunchAction::Locate);
    assert_eq!(
        flow.step(LaunchEvent::Located(Some("/home/steve".to_string()))),
        LaunchAction::CreateDir(under("/home/steve"))
    );
    assert_eq!(
        flow.step(LaunchEvent::Created(Ok(()))),
        LaunchAction::Install(plan(&under("/home/steve"), "steve"))
    );
    assert_eq!(flow.step(LaunchEvent::Installed(Ok(()))), LaunchAction::SpawnAndWait);
    let exit = LaunchEvent::Exited(Ok((true, "exit status: 0".to_string())));
    assert!(flow.accepts(&exit));
    assert_eq!(flow.step(exit), LaunchAction::Finish(Ok(())));
    assert!(!flow.accepts(&LaunchEvent::Synced(Ok(()))));
    assert!(!flow.accepts(&LaunchEvent::WorkerFailed("x".to_string())));
}

fn run_to_playing() -> LaunchFlow {
    let (mut flow, _) = LaunchFlow::start("steve");
    flow.step(LaunchEvent::Synced(Ok(())));
    flow.step(LaunchEvent::Located(Some("/g".to_string())));
    flow.step(LaunchEvent::Created(Ok(())));
    flow.step(LaunchEvent::Installed(Ok(())));
    flow
}

#[test]
fn launch_failures_carry_messages() {
    let (mut flow, _) = LaunchFlow::start("steve");
    assert_eq!(
        flow.step(LaunchEvent::Synced(Err("offline".to_string()))),
        LaunchAction::Finish(Err("Erreur de synchronisation des ressources : offline".to_string()))
    );
    assert!(!flow.accepts(&LaunchEvent::Located(None)));

    let (mut flow, _) = LaunchFlow::start("steve");
    flow.step(LaunchEvent::Synced(Ok(())));
    assert_eq!(
        flow.step(LaunchEvent::Located(None)),
        LaunchAction::Finish(Err("Impossible de déterminer le dossier utilisateur".to_string()))
    );

    let (mut flow, _) = LaunchFlow::start("steve");
    flow.step(LaunchEvent::Synced(Ok(())));
    flow.step(LaunchEvent::Located(Some("/g".to_string())));
    assert_eq!(
        flow.step(LaunchEvent::Created(Err("denied".to_string()))),
        LaunchAction::Finish(Err(format!("Impossible de créer le dossier du jeu ({}) : denied", under("/g"))))
    );

    let (mut flow, _) = LaunchFlow::start("steve");
    flow.step(LaunchEvent::Synced(Ok(())));
    flow.step(LaunchEvent::Located(Some("/g".to_string())));
    flow.step(LaunchEvent::Created(Ok(())));
    assert_eq!(
        flow.step(LaunchEvent::Installed(Err("no network".to_string()))),
        LaunchAction::Finish(Err("Erreur lors de l'installation : no network".to_string()))
    );
}

#[test]
fn launch_exit_failures() {
    let mut flow = run_to_playing();
    assert_eq!(
        flow.step(LaunchEvent::Exited(Ok((false, "exit status: 1".to_string())))),
        LaunchAction::Finish(Err("Le jeu s'est fermé avec un code d'erreur : exit status: 1".to_string()))
    );
    let mut flow = run_to_playing();
    assert_eq!(
        flow.step(LaunchEvent::Exited(Err("java missing".to_string()))),
        LaunchAction::Finish(Err("Erreur lors du lancement du jeu : java missing".to_string()))
    );
    let mut flow = run_to_playing();
    assert_eq!(
        flow.step(LaunchEvent::WorkerFailed("panicked".to_string())),
        LaunchAction::Finish(Err("Erreur interne lors du lancement : panicked".to_string()))
    );
}

#[test]
fn launch_does_not_accept_out_of_order_events() {
    let (flow, _) = LaunchFlow::start("steve");
    assert!(!flow.accepts(&LaunchEvent::Installed(Ok(()))));
    assert!(!flow.accepts(&LaunchEvent::WorkerFailed("x".to_string())));
    assert!(flow.accepts(&LaunchEvent::Synced(Ok(()))));
}
