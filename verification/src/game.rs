//! Launching the game: where it is installed, which versions are installed,
//! and the sequence of steps from the resource sync to the end of the game,
//! as a state machine that the caller drives by performing each action and
//! reporting its outcome.

use vstd::prelude::*;

use crate::text::joined;

verus! {

/// The folder of the launcher's game files, beside the official launcher's.
pub const GAME_DIR_NAME: &'static str = "idc-launcher";

/// The Minecraft version that the launcher installs.
pub const MINECRAFT_VERSION: &'static str = "1.21.1";

/// The NeoForge version that the launcher installs.
pub const NEOFORGE_VERSION: &'static str = "21.1.232";

/// The error given when the user's base folder is unknown.
pub const NO_USER_DIR: &'static str = "Impossible de déterminer le dossier utilisateur";

/// The path that `std::path::Path::join` gives for `child` under `base`.
pub uninterp spec fn joined_path(base: Seq<char>, child: Seq<char>) -> Seq<char>;

/// Joins `child` to `base` with `std::path::Path::join` and renders the
/// result as text (both parts are text, so nothing is lost).
#[verifier::external_body]
fn join_path(base: &str, child: &str) -> (p: String)
    ensures
        p@ == joined_path(base@, child@),
{
    std::path::Path::new(base).join(child).to_string_lossy().into_owned()
}

/// The game folder under the user's base folder: the base joined with
/// `idc-launcher`, or the error that the base folder is unknown.
pub fn game_directory(base: Option<String>) -> (r: Result<String, String>)
    ensures
        match base {
            Some(b) => r matches Ok(d) && d@ == joined_path(b@, GAME_DIR_NAME@),
            None => r matches Err(m) && m@ == NO_USER_DIR@,
        },
{
    match base {
        Some(b) => Ok(join_path(b.as_str(), GAME_DIR_NAME)),
        None => Err(NO_USER_DIR.to_owned()),
    }
}

/// What to install and run: NeoForge on Minecraft in the game folder, for
/// an offline profile with the player's name.
#[derive(Debug, Clone, PartialEq, Eq)]
pub struct LaunchPlan {
    pub game_dir: String,
    pub username: String,
    pub minecraft_version: String,
    pub neoforge_version: String,
}

/// The plan to install and run the launcher's game in `game_dir` for the
/// player `username`.
pub fn launch_plan(game_dir: &str, username: &str) -> (p: LaunchPlan)
    ensures
        p.game_dir@ == game_dir@,
        p.username@ == username@,
        p.minecraft_version@ == MINECRAFT_VERSION@,
        p.neoforge_version@ == NEOFORGE_VERSION@,
{
    LaunchPlan {
        game_dir: game_dir.to_owned(),
        username: username.to_owned(),
        minecraft_version: MINECRAFT_VERSION.to_owned(),
        neoforge_version: NEOFORGE_VERSION.to_owned(),
    }
}

/// Where a launch stands.
#[derive(Debug, Clone, PartialEq, Eq)]
pub enum LaunchStage {
    /// The game's resources are being synchronised.
    Syncing,
    /// The user's base folder is being looked up.
    Locating,
    /// The game folder is being created.
    Creating(String),
    /// The game is being installed.
    Installing,
    /// The game is running; the launch waits for it to end.
    Playing,
    /// The launch is over.
    Finished,
}

/// What the caller reports after performing an action.
#[derive(Debug, PartialEq, Eq)]
pub enum LaunchEvent {
    /// The resource sync ended, or failed with the given message.
    Synced(Result<(), String>),
    /// The user's base folder, if it could be determined.
    Located(Option<String>),
    /// The game folder was created, or not for the given reason.
    Created(Result<(), String>),
    /// The installation ended, or failed for the given reason.
    Installed(Result<(), String>),
    /// The game ended, with whether its exit status was a success and that
    /// status in text; or it could not be started, for the given reason.
    Exited(Result<(bool, String), String>),
    /// The worker that runs the blocking steps failed, for the given reason.
    WorkerFailed(String),
}

/// What the caller is to do next.
#[derive(Debug, PartialEq, Eq)]
pub enum LaunchAction {
    /// Synchronise the game's resources.
    Sync,
    /// Look up the user's base folder.
    Locate,
    /// Create the given game folder and its parents.
    CreateDir(String),
    /// Install the game as planned.
    Install(LaunchPlan),
    /// Start the installed game and wait for it to end.
    SpawnAndWait,
    /// Nothing more: the launch ended with this result.
    Finish(Result<(), String>),
}

/// The view of a launch stage.
pub enum StageView {
    Syncing,
    Locating,
    Creating(Seq<char>),
    Installing,
    Playing,
    Finished,
}

/// The view of a reported outcome.
pub enum EventView {
    Synced(Result<(), Seq<char>>),
    Located(Option<Seq<char>>),
    Created(Result<(), Seq<char>>),
    Installed(Result<(), Seq<char>>),
    Exited(Result<(bool, Seq<char>), Seq<char>>),
    WorkerFailed(Seq<char>),
}

/// The view of an action.
pub enum ActionView {
    Sync,
    Locate,
    CreateDir(Seq<char>),
    Install { game_dir: Seq<char>, username: Seq<char>, minecraft_version: Seq<char>, neoforge_version: Seq<char> },
    SpawnAndWait,
    Finish(Result<(), Seq<char>>),
}

pub open spec fn unit_result_view(r: Result<(), String>) -> Result<(), Seq<char>> {
    match r {
        Ok(()) => Ok(()),
        Err(e) => Err(e@),
    }
}

impl View for LaunchStage {
    type V = StageView;

    open spec fn view(&self) -> StageView {
        match self {
            LaunchStage::Syncing => StageView::Syncing,
            LaunchStage::Locating => StageView::Locating,
            LaunchStage::Creating(d) => StageView::Creating(d@),
            LaunchStage::Installing => StageView::Installing,
            LaunchStage::Playing => StageView::Playing,
            LaunchStage::Finished => StageView::Finished,
        }
    }
}

impl View for LaunchEvent {
    type V = EventView;

    open spec fn view(&self) -> EventView {
        match self {
            LaunchEvent::Synced(r) => EventView::Synced(unit_result_view(*r)),
            LaunchEvent::Located(b) => EventView::Located(
                match b {
                    Some(s) => Some(s@),
                    None => None,
                },
            ),
            LaunchEvent::Created(r) => EventView::Created(unit_result_view(*r)),
            LaunchEvent::Installed(r) => EventView::Installed(unit_result_view(*r)),
            LaunchEvent::Exited(r) => EventView::Exited(
                match r {
                    Ok((ok, status)) => Ok((*ok, status@)),
                    Err(e) => Err(e@),
                },
            ),
            LaunchEvent::WorkerFailed(e) => EventView::WorkerFailed(e@),
        }
    }
}

impl View for LaunchAction {
    type V = ActionView;

    open spec fn view(&self) -> ActionView {
        match self {
            LaunchAction::Sync => ActionView::Sync,
            LaunchAction::Locate => ActionView::Locate,
            LaunchAction::CreateDir(d) => ActionView::CreateDir(d@),
            LaunchAction::Install(p) => ActionView::Install {
                game_dir: p.game_dir@,
                username: p.username@,
                minecraft_version: p.minecraft_version@,
                neoforge_version: p.neoforge_version@,
            },
            LaunchAction::SpawnAndWait => ActionView::SpawnAndWait,
            LaunchAction::Finish(r) => ActionView::Finish(unit_result_view(*r)),
        }
    }
}

/// The outcomes that a stage waits for: each running stage waits for the
/// outcome of its own action, and the blocking stages (all but the sync)
/// also for a failure of the worker that runs them. A finished launch waits
/// for nothing.
pub open spec fn accepts(stage: StageView, event: EventView) -> bool {
    match (stage, event) {
        (StageView::Syncing, EventView::Synced(_)) => true,
        (StageView::Locating, EventView::Located(_)) => true,
        (StageView::Creating(_), EventView::Created(_)) => true,
        (StageView::Installing, EventView::Installed(_)) => true,
        (StageView::Playing, EventView::Exited(_)) => true,
        (StageView::Locating, EventView::WorkerFailed(_)) => true,
        (StageView::Creating(_), EventView::WorkerFailed(_)) => true,
        (StageView::Installing, EventView::WorkerFailed(_)) => true,
        (StageView::Playing, EventView::WorkerFailed(_)) => true,
        _ => false,
    }
}

/// Ends the launch with the error `message`.
pub open spec fn fail(message: Seq<char>) -> (StageView, ActionView) {
    (StageView::Finished, ActionView::Finish(Err(message)))
}

/// One step of a launch for the player `username`: from the stage and the
/// outcome of its action, the next stage and what to do next.
pub open spec fn launch_step(username: Seq<char>, stage: StageView, event: EventView) -> (StageView, ActionView) {
    match (stage, event) {
        (StageView::Syncing, EventView::Synced(Ok(()))) => (StageView::Locating, ActionView::Locate),
        (StageView::Syncing, EventView::Synced(Err(e))) => fail(
            "Erreur de synchronisation des ressources : "@ + e,
        ),
        (StageView::Locating, EventView::Located(Some(base))) => {
            let dir = joined_path(base, GAME_DIR_NAME@);
            (StageView::Creating(dir), ActionView::CreateDir(dir))
        },
        (StageView::Locating, EventView::Located(None)) => fail(NO_USER_DIR@),
        (StageView::Creating(dir), EventView::Created(Ok(()))) => (
            StageView::Installing,
            ActionView::Install {
                game_dir: dir,
                username,
                minecraft_version: MINECRAFT_VERSION@,
                neoforge_version: NEOFORGE_VERSION@,
            },
        ),
        (StageView::Creating(dir), EventView::Created(Err(e))) => fail(
            "Impossible de créer le dossier du jeu ("@ + dir + ") : "@ + e,
        ),
        (StageView::Installing, EventView::Installed(Ok(()))) => (StageView::Playing, ActionView::SpawnAndWait),
        (StageView::Installing, EventView::Installed(Err(e))) => fail("Erreur lors de l'installation : "@ + e),
        (StageView::Playing, EventView::Exited(Ok((true, _)))) => (StageView::Finished, ActionView::Finish(Ok(()))),
        (StageView::Playing, EventView::Exited(Ok((false, status)))) => fail(
            "Le jeu s'est fermé avec un code d'erreur : "@ + status,
        ),
        (StageView::Playing, EventView::Exited(Err(e))) => fail("Erreur lors du lancement du jeu : "@ + e),
        (_, EventView::WorkerFailed(e)) => fail("Erreur interne lors du lancement : "@ + e),
        _ => (stage, ActionView::Finish(Ok(()))),
    }
}

/// A launch of the game for one player.
#[derive(Debug, Clone)]
pub struct LaunchFlow {
    username: String,
    stage: LaunchStage,
}

impl LaunchFlow {
    /// The player for whom the game is launched.
    pub closed spec fn player(&self) -> Seq<char> {
        self.username@
    }

    /// Where the launch stands.
    pub closed spec fn stage_view(&self) -> StageView {
        self.stage@
    }

    /// Starts a launch for the player `username`: the first action is to
    /// synchronise the game's resources.
    pub fn start(username: &str) -> (r: (LaunchFlow, LaunchAction))
        ensures
            r.0.player() == username@,
            r.0.stage_view() == StageView::Syncing,
            r.1@ == ActionView::Sync,
    {
        (LaunchFlow { username: username.to_owned(), stage: LaunchStage::Syncing }, LaunchAction::Sync)
    }

    /// Whether the launch waits for `event`.
    pub fn accepts(&self, event: &LaunchEvent) -> (b: bool)
        ensures
            b == accepts(self.stage_view(), event@),
    {
        match (&self.stage, event) {
            (LaunchStage::Syncing, LaunchEvent::Synced(_)) => true,
            (LaunchStage::Locating, LaunchEvent::Located(_)) => true,
            (LaunchStage::Creating(_), LaunchEvent::Created(_)) => true,
            (LaunchStage::Installing, LaunchEvent::Installed(_)) => true,
            (LaunchStage::Playing, LaunchEvent::Exited(_)) => true,
            (LaunchStage::Locating, LaunchEvent::WorkerFailed(_)) => true,
            (LaunchStage::Creating(_), LaunchEvent::WorkerFailed(_)) => true,
            (LaunchStage::Installing, LaunchEvent::WorkerFailed(_)) => true,
            (LaunchStage::Playing, LaunchEvent::WorkerFailed(_)) => true,
            _ => false,
        }
    }

    /// Takes the outcome of the last action and says what to do next.
    pub fn step(&mut self, event: LaunchEvent) -> (a: LaunchAction)
        requires
            accepts(old(self).stage_view(), event@),
        ensures
            final(self).player() == old(self).player(),
            (final(self).stage_view(), a@) == launch_step(old(self).player(), old(self).stage_view(), event@),
    {
        let mut stage = LaunchStage::Finished;
        std::mem::swap(&mut stage, &mut self.stage);
        match (stage, event) {
            (LaunchStage::Syncing, LaunchEvent::Synced(Ok(()))) => {
                self.stage = LaunchStage::Locating;
                LaunchAction::Locate
            },
            (LaunchStage::Syncing, LaunchEvent::Synced(Err(e))) => {
                LaunchAction::Finish(Err(joined("Erreur de synchronisation des ressources : ", e.as_str())))
            },
            (LaunchStage::Locating, LaunchEvent::Located(Some(base))) => {
                let dir = join_path(base.as_str(), GAME_DIR_NAME);
                let action = LaunchAction::CreateDir(dir.clone());
                self.stage = LaunchStage::Creating(dir);
                action
            },
            (LaunchStage::Locating, LaunchEvent::Located(None)) => {
                LaunchAction::Finish(Err(NO_USER_DIR.to_owned()))
            },
            (LaunchStage::Creating(dir), LaunchEvent::Created(Ok(()))) => {
                self.stage = LaunchStage::Installing;
                LaunchAction::Install(launch_plan(dir.as_str(), self.username.as_str()))
            },
            (LaunchStage::Creating(dir), LaunchEvent::Created(Err(e))) => {
                let mut m = joined("Impossible de créer le dossier du jeu (", dir.as_str());
                m.append(") : ");
                m.append(e.as_str());
                LaunchAction::Finish(Err(m))
            },
            (LaunchStage::Installing, LaunchEvent::Installed(Ok(()))) => {
                self.stage = LaunchStage::Playing;
                LaunchAction::SpawnAndWait
            },
            (LaunchStage::Installing, LaunchEvent::Installed(Err(e))) => {
                LaunchAction::Finish(Err(joined("Erreur lors de l'installation : ", e.as_str())))
            },
            (LaunchStage::Playing, LaunchEvent::Exited(Ok((success, status)))) => {
                if success {
                    LaunchAction::Finish(Ok(()))
                } else {
                    LaunchAction::Finish(Err(joined("Le jeu s'est fermé avec un code d'erreur : ", status.as_str())))
                }
            },
            (LaunchStage::Playing, LaunchEvent::Exited(Err(e))) => {
                LaunchAction::Finish(Err(joined("Erreur lors du lancement du jeu : ", e.as_str())))
            },
            (_, LaunchEvent::WorkerFailed(e)) => {
                LaunchAction::Finish(Err(joined("Erreur interne lors du lancement : ", e.as_str())))
            },
            (other, _) => {
                self.stage = other;
                LaunchAction::Finish(Ok(()))
            },
        }
    }
}

/// A finished launch waits for nothing more.
pub proof fn law_finished_launch_is_final(event: EventView)
    ensures
        !accepts(StageView::Finished, event),
{
}

/// The game is started only right after a successful installation.
pub proof fn law_game_starts_only_after_install(username: Seq<char>, stage: StageView, event: EventView)
    requires
        accepts(stage, event),
        launch_step(username, stage, event).1 == ActionView::SpawnAndWait,
    ensures
        stage == StageView::Installing,
        event matches EventView::Installed(Ok(_)),
{
}

/// The game is installed only into the game folder just created, for the
/// player of the launch, with the launcher's versions.
pub proof fn law_install_targets_created_folder(username: Seq<char>, stage: StageView, event: EventView)
    requires
        accepts(stage, event),
        launch_step(username, stage, event).1 is Install,
    ensures
        stage matches StageView::Creating(dir) && event matches EventView::Created(Ok(_))
            && launch_step(username, stage, event).1 == (ActionView::Install {
                game_dir: dir,
                username,
                minecraft_version: MINECRAFT_VERSION@,
                neoforge_version: NEOFORGE_VERSION@,
            }),
{
}

/// A launch ends well only when the game ended with a successful status.
pub proof fn law_success_only_from_clean_exit(username: Seq<char>, stage: StageView, event: EventView)
    requires
        accepts(stage, event),
        launch_step(username, stage, event).1 == ActionView::Finish(Ok(())),
    ensures
        stage == StageView::Playing,
        event matches EventView::Exited(Ok((true, _))),
{
}

/// Any failure reported to a launch ends it, with an error.
pub proof fn law_failures_end_the_launch(username: Seq<char>, stage: StageView, event: EventView)
    requires
        accepts(stage, event),
        match event {
            EventView::Synced(r) => r is Err,
            EventView::Located(b) => b is None,
            EventView::Created(r) => r is Err,
            EventView::Installed(r) => r is Err,
            EventView::Exited(r) => r matches Ok((ok, _)) ==> !ok,
            EventView::WorkerFailed(_) => true,
        },
    ensures
        launch_step(username, stage, event).0 == StageView::Finished,
        launch_step(username, stage, event).1 matches ActionView::Finish(Err(_)),
{
}

/// Every running stage waits for the outcome of its own action, whatever that
/// outcome is, and every blocking stage also for a failure of its worker.
pub proof fn law_each_stage_waits_for_its_own_outcome(
    dir: Seq<char>,
    outcome: Result<(), Seq<char>>,
    base: Option<Seq<char>>,
    exit: Result<(bool, Seq<char>), Seq<char>>,
    cause: Seq<char>,
)
    ensures
        accepts(StageView::Syncing, EventView::Synced(outcome)),
        accepts(StageView::Locating, EventView::Located(base)),
        accepts(StageView::Creating(dir), EventView::Created(outcome)),
        accepts(StageView::Installing, EventView::Installed(outcome)),
        accepts(StageView::Playing, EventView::Exited(exit)),
        accepts(StageView::Locating, EventView::WorkerFailed(cause)),
        accepts(StageView::Creating(dir), EventView::WorkerFailed(cause)),
        accepts(StageView::Installing, EventView::WorkerFailed(cause)),
        accepts(StageView::Playing, EventView::WorkerFailed(cause)),
        !accepts(StageView::Syncing, EventView::WorkerFailed(cause)),
{
}

/// A game that exits with a successful status ends the launch well, whatever
/// the text of that status.
pub proof fn law_clean_exit_ends_well(username: Seq<char>, status: Seq<char>)
    ensures
        launch_step(username, StageView::Playing, EventView::Exited(Ok((true, status))))
            == (StageView::Finished, ActionView::Finish(Ok(()))),
{
}

/// Each successful outcome moves the launch on to the next step: after the
/// sync, look up the base folder; then create `idc-launcher` under it; then
/// install NeoForge 21.1.232 on Minecraft 1.21.1 there for the player; then
/// start the game.
pub proof fn law_successful_outcomes_advance(username: Seq<char>, base: Seq<char>, dir: Seq<char>)
    ensures
        launch_step(username, StageView::Syncing, EventView::Synced(Ok(())))
            == (StageView::Locating, ActionView::Locate),
        launch_step(username, StageView::Locating, EventView::Located(Some(base))) == (
            StageView::Creating(joined_path(base, "idc-launcher"@)),
            ActionView::CreateDir(joined_path(base, "idc-launcher"@)),
        ),
        launch_step(username, StageView::Creating(dir), EventView::Created(Ok(()))) == (
            StageView::Installing,
            ActionView::Install {
                game_dir: dir,
                username,
                minecraft_version: "1.21.1"@,
                neoforge_version: "21.1.232"@,
            },
        ),
        launch_step(username, StageView::Installing, EventView::Installed(Ok(())))
            == (StageView::Playing, ActionView::SpawnAndWait),
{
}

/// Each failure ends the launch with its own message, which carries the
/// failure's text.
pub proof fn law_failure_messages(username: Seq<char>, dir: Seq<char>, cause: Seq<char>, stage: StageView)
    requires
        stage != StageView::Syncing,
        stage != StageView::Finished,
    ensures
        launch_step(username, StageView::Syncing, EventView::Synced(Err(cause))) == (
            StageView::Finished,
            ActionView::Finish(Err("Erreur de synchronisation des ressources : "@ + cause)),
        ),
        launch_step(username, StageView::Locating, EventView::Located(None)) == (
            StageView::Finished,
            ActionView::Finish(Err("Impossible de déterminer le dossier utilisateur"@)),
        ),
        launch_step(username, StageView::Creating(dir), EventView::Created(Err(cause))) == (
            StageView::Finished,
            ActionView::Finish(Err("Impossible de créer le dossier du jeu ("@ + dir + ") : "@ + cause)),
        ),
        launch_step(username, StageView::Installing, EventView::Installed(Err(cause))) == (
            StageView::Finished,
            ActionView::Finish(Err("Erreur lors de l'installation : "@ + cause)),
        ),
        launch_step(username, StageView::Playing, EventView::Exited(Ok((false, cause)))) == (
            StageView::Finished,
            ActionView::Finish(Err("Le jeu s'est fermé avec un code d'erreur : "@ + cause)),
        ),
        launch_step(username, StageView::Playing, EventView::Exited(Err(cause))) == (
            StageView::Finished,
            ActionView::Finish(Err("Erreur lors du lancement du jeu : "@ + cause)),
        ),
        launch_step(username, stage, EventView::WorkerFailed(cause)) == (
            StageView::Finished,
            ActionView::Finish(Err("Erreur interne lors du lancement : "@ + cause)),
        ),
{
}

/// The game folder is `idc-launcher` under the user's base folder, and the
/// installed versions are NeoForge 21.1.232 on Minecraft 1.21.1.
pub proof fn law_launch_constants()
    ensures
        GAME_DIR_NAME@ == "idc-launcher"@,
        MINECRAFT_VERSION@ == "1.21.1"@,
        NEOFORGE_VERSION@ == "21.1.232"@,
        NO_USER_DIR@ == "Impossible de déterminer le dossier utilisateur"@,
{
}

/// How reported outcomes read: a success as a success, a failure as a
/// failure with its text, a base folder as its text, an exit as whether its
/// status was a success and that status's text.
pub proof fn law_outcome_views(
    outcome: Result<(), String>,
    base: Option<String>,
    exit: Result<(bool, String), String>,
    cause: String,
)
    ensures
        LaunchEvent::Synced(outcome)@ == EventView::Synced(
            match outcome {
                Ok(_) => Ok(()),
                Err(e) => Err(e@),
            },
        ),
        LaunchEvent::Created(outcome)@ == EventView::Created(
            match outcome {
                Ok(_) => Ok(()),
                Err(e) => Err(e@),
            },
        ),
        LaunchEvent::Installed(outcome)@ == EventView::Installed(
            match outcome {
                Ok(_) => Ok(()),
                Err(e) => Err(e@),
            },
        ),
        LaunchEvent::Located(base)@ == EventView::Located(
            match base {
                Some(b) => Some(b@),
                None => None,
            },
        ),
        LaunchEvent::Exited(exit)@ == EventView::Exited(
            match exit {
                Ok((ok, status)) => Ok((ok, status@)),
                Err(e) => Err(e@),
            },
        ),
        LaunchEvent::WorkerFailed(cause)@ == EventView::WorkerFailed(cause@),
        LaunchAction::Finish(outcome)@ == ActionView::Finish(
            match outcome {
                Ok(_) => Ok(()),
                Err(e) => Err(e@),
            },
        ),
        LaunchAction::CreateDir(cause)@ == ActionView::CreateDir(cause@),
        LaunchAction::Sync@ == ActionView::Sync,
        LaunchAction::Locate@ == ActionView::Locate,
        LaunchAction::SpawnAndWait@ == ActionView::SpawnAndWait,
        LaunchStage::Creating(cause)@ == StageView::Creating(cause@),
        LaunchStage::Syncing@ == StageView::Syncing,
        LaunchStage::Locating@ == StageView::Locating,
        LaunchStage::Installing@ == StageView::Installing,
        LaunchStage::Playing@ == StageView::Playing,
        LaunchStage::Finished@ == StageView::Finished,
{
}

/// An install action reads as the plan's folder, player and versions.
pub proof fn law_install_view(plan: LaunchPlan)
    ensures
        LaunchAction::Install(plan)@ == (ActionView::Install {
            game_dir: plan.game_dir@,
            username: plan.username@,
            minecraft_version: plan.minecraft_version@,
            neoforge_version: plan.neoforge_version@,
        }),
{
}

} // verus!
