//! Orders sent to the render process. Stages are addressed by their
//! position in the render chain at the time the order is emitted.
use vstd::prelude::*;

use crate::model::{
    Automation, DataHolder, FilterMode, InputConfig, Precision, RenderStageConfig, SampledInput,
    Speed,
};

verus! {

/// A change to one field of an input.
#[derive(Debug, PartialEq, Eq)]
pub enum InputUpdate {
    SetPath(String),
    SetWidth(usize),
    SetHeight(usize),
    SetSpeed(Speed),
}

/// A change to one field of a stage.
#[derive(Debug, PartialEq, Eq)]
pub enum StageUpdate {
    Filter(String),
    FilterModeParams(FilterMode),
    Name(String),
    Input(String, SampledInput),
    Variable(String, DataHolder),
    Automation(String, Automation),
    Precision(Precision),
}

/// An order to the render process.
#[derive(Debug, PartialEq, Eq)]
pub enum Message {
    SetBpm(u32),
    SetWidth(usize),
    SetHeight(usize),
    SetTargetFps(u32),
    SetDynamicResolution(bool),
    SetVSync(bool),
    SetScreenshot(bool),
    SetFullscreen(bool),
    SetLockedSpeed(bool),
    AddInput(String, InputConfig),
    RenameInput(String, String),
    UpdateInput(String, InputUpdate),
    RemoveInput(String),
    AddRenderStage(RenderStageConfig),
    UpdateRenderStage(usize, StageUpdate),
    MoveRenderStage(usize, usize),
    RemoveRenderStage(usize),
    UpdateFinalStage(StageUpdate),
    Start,
}

} // verus!
