//! The progression of the game: which scene is shown and which stage is
//! played, and what the keys do on the screens around the game itself.
//!
//! Scene and stage are two state machines side by side. A change is asked
//! for during a tick and made at the end of it, so that nothing within a
//! tick sees a half-made change.

use vstd::prelude::*;
use crate::consts::{GameState, StageState};
use crate::timer::Timer;

verus! {

/// The first picture of the ending.
pub const ENDING_FIRST_SCENE: u8 = 5;

/// The last picture of the ending.
pub const ENDING_LAST_SCENE: u8 = 14;

/// The time for which a picture of the ending stays before the key moves
/// on, in nanoseconds.
pub const ENDING_SLEEP: u64 = 1_000_000_000;

/// The scene and the stage, each with the change that is asked for.
#[derive(Clone, Copy, Debug, PartialEq, Eq, Structural)]
pub struct Flow {
    /// The scene that is shown.
    pub scene: GameState,
    /// The stage that is played, or played next.
    pub stage: StageState,
    /// The scene to go to at the end of the tick, if one is asked for.
    pub next_scene: Option<GameState>,
    /// The stage to go to at the end of the tick, if one is asked for.
    pub next_stage: Option<StageState>,
}

impl Flow {
    /// The flow as the game opens: the title, the first stage, no change
    /// asked for.
    pub open spec fn opened() -> Flow {
        Flow { scene: GameState::Title, stage: StageState::Stage1, next_scene: None, next_stage: None }
    }

    /// The flow after the changes that were asked for are made.
    pub open spec fn settled(self) -> Flow {
        Flow {
            scene: match self.next_scene {
                Some(scene) => scene,
                None => self.scene,
            },
            stage: match self.next_stage {
                Some(stage) => stage,
                None => self.stage,
            },
            next_scene: None,
            next_stage: None,
        }
    }

    /// The flow after the confirm key on the title: the game loads.
    pub open spec fn title_confirmed(self, confirm: bool) -> Flow {
        if self.scene is Title && confirm {
            Flow { next_scene: Some(GameState::Loading), ..self }
        } else {
            self
        }
    }

    /// The flow after the confirm key on the title of a stage: the stage
    /// begins.
    pub open spec fn stage_title_confirmed(self, confirm: bool) -> Flow {
        if self.scene is StageTitle && confirm {
            Flow { next_scene: Some(GameState::Game), ..self }
        } else {
            self
        }
    }

    /// Makes the flow as the game opens.
    pub fn new() -> (flow: Flow)
        ensures
            flow == Flow::opened(),
    {
        Flow { scene: GameState::Title, stage: StageState::Stage1, next_scene: None, next_stage: None }
    }

    /// Asks for a scene. The change is made when the tick ends; a later
    /// request within the same tick replaces an earlier one.
    pub fn set_scene(&mut self, scene: GameState)
        ensures
            *final(self) == (Flow { next_scene: Some(scene), ..*old(self) }),
    {
        self.next_scene = Some(scene);
    }

    /// Asks for a stage. The change is made when the tick ends.
    pub fn set_stage(&mut self, stage: StageState)
        ensures
            *final(self) == (Flow { next_stage: Some(stage), ..*old(self) }),
    {
        self.next_stage = Some(stage);
    }

    /// Ends the tick: makes the changes that were asked for. Returns
    /// whether the scene is another one now.
    pub fn apply_pending(&mut self) -> (scene_changed: bool)
        ensures
            *final(self) == old(self).settled(),
            scene_changed == (final(self).scene != old(self).scene),
    {
        let before = self.scene;
        match self.next_scene {
            Some(scene) => {
                self.scene = scene;
            },
            None => {},
        }
        match self.next_stage {
            Some(stage) => {
                self.stage = stage;
            },
            None => {},
        }
        self.next_scene = None;
        self.next_stage = None;
        self.scene != before
    }

    /// Reads the confirm key on the title: it asks for the loading scene.
    /// In any other scene the key means nothing here.
    pub fn title_control_keys(&mut self, confirm: bool)
        ensures
            *final(self) == old(self).title_confirmed(confirm),
    {
        if self.scene == GameState::Title && confirm {
            self.set_scene(GameState::Loading);
        }
    }

    /// Reads the confirm key on the title of a stage: it asks for the game
    /// itself. In any other scene the key means nothing here.
    pub fn stage_title_control_keys(&mut self, confirm: bool)
        ensures
            *final(self) == old(self).stage_title_confirmed(confirm),
    {
        if self.scene == GameState::StageTitle && confirm {
            self.set_scene(GameState::Game);
        }
    }
}

/// The ending: a row of pictures, each of which stays for a while before
/// the confirm key moves on to the next.
#[derive(Clone, Copy, Debug, PartialEq, Eq, Structural)]
pub struct Ending {
    /// The number of the picture that is shown.
    pub number: u8,
    /// The time for which the picture has to stay.
    pub sleep: Timer,
}

impl Ending {
    /// The ending at its first picture.
    pub open spec fn opened() -> Ending {
        Ending { number: ENDING_FIRST_SCENE, sleep: Timer::fresh(ENDING_SLEEP) }
    }

    /// The number of the picture is one of the ending's.
    pub open spec fn wf(self) -> bool {
        self.number <= ENDING_LAST_SCENE
    }

    /// The confirm key moves on: it went down, and after this tick the
    /// picture has stayed long enough.
    pub open spec fn moves_on(self, confirm: bool, delta: u64) -> bool {
        confirm && self.sleep.ticked(delta).finished
    }

    /// The ending after a tick of `delta` nanoseconds on its screen. The
    /// picture's time goes on. Where the confirm key moves on, the next
    /// picture is shown and its time starts; the last picture stays.
    pub open spec fn advanced(self, confirm: bool, delta: u64) -> Ending {
        if self.moves_on(confirm, delta) && self.number != ENDING_LAST_SCENE {
            Ending { number: (self.number + 1) as u8, sleep: self.sleep.rewound() }
        } else {
            Ending { sleep: self.sleep.ticked(delta), ..self }
        }
    }

    /// The confirm key leaves the ending: it moves on from the last picture.
    pub open spec fn leaves(self, confirm: bool, delta: u64) -> bool {
        self.moves_on(confirm, delta) && self.number == ENDING_LAST_SCENE
    }

    /// Makes the ending at its first picture.
    pub fn new() -> (ending: Ending)
        ensures
            ending == Ending::opened(),
            ending.wf(),
    {
        Ending { number: ENDING_FIRST_SCENE, sleep: Timer::new(ENDING_SLEEP) }
    }

    /// Lets a tick of `delta` nanoseconds pass on the ending and reads the
    /// confirm key. From the last picture the key asks for the title. In
    /// any other scene nothing happens.
    pub fn control_keys(&mut self, flow: &mut Flow, confirm: bool, delta: u64)
        requires
            old(self).wf(),
        ensures
            final(self).wf(),
            *final(self) == (if old(flow).scene is Ending {
                old(self).advanced(confirm, delta)
            } else {
                *old(self)
            }),
            *final(flow) == (if old(flow).scene is Ending && old(self).leaves(confirm, delta) {
                Flow { next_scene: Some(GameState::Title), ..*old(flow) }
            } else {
                *old(flow)
            }),
    {
        if flow.scene != GameState::Ending {
            return;
        }
        self.sleep.tick(delta);
        if confirm && self.sleep.finished() {
            if self.number == ENDING_LAST_SCENE {
                flow.set_scene(GameState::Title);
            } else {
                self.number = self.number + 1;
                self.sleep.reset();
            }
        }
    }
}

} // verus!
