//! The value model: the plain data of one project configuration.
//!
//! Floating-point quantities (rates, BPM, oscillator parameters, variable
//! values) are carried as their IEEE-754 bit patterns: no rule of the model
//! reads them, it only keeps and moves them.
use vstd::prelude::*;

verus! {

/// Playback speed of a video input, as the bits of an `f32`.
#[derive(Clone, Copy, Debug, PartialEq, Eq, Structural)]
pub enum Speed {
    /// Frames per second.
    Fps(u32),
    /// Frames per beat, relative to the project tempo.
    Fpb(u32),
}

/// The kind of an input source.
#[derive(Clone, Copy, Debug, PartialEq, Eq, Structural)]
pub enum InputKind {
    Cam,
    Video,
    Picture,
    Midi,
}

/// One input source and its per-kind parameters.
#[derive(Debug, PartialEq, Eq)]
pub enum InputConfig {
    Cam { path: String, width: usize, height: usize },
    Video { path: String, width: usize, height: usize, speed: Speed },
    Picture { path: String, width: usize, height: usize },
    Midi { pattern: String },
}

impl Clone for InputConfig {
    fn clone(&self) -> (r: Self)
        ensures
            r == *self,
    {
        match self {
            InputConfig::Cam { path, width, height } => InputConfig::Cam {
                path: path.clone(),
                width: *width,
                height: *height,
            },
            InputConfig::Video { path, width, height, speed } => InputConfig::Video {
                path: path.clone(),
                width: *width,
                height: *height,
                speed: *speed,
            },
            InputConfig::Picture { path, width, height } => InputConfig::Picture {
                path: path.clone(),
                width: *width,
                height: *height,
            },
            InputConfig::Midi { pattern } => InputConfig::Midi { pattern: pattern.clone() },
        }
    }
}

/// The bits of the `f32` 25.0, the frame rate a new video plays at.
pub const DEFAULT_VIDEO_FPS: u32 = 0x41c8_0000;

impl InputConfig {
    /// The parameters a new input of kind `kind` starts with: the first
    /// camera device, the bundled example video (25 frames per second) or
    /// picture, all at 640 by 480, or every MIDI device.
    pub fn default_for(kind: InputKind) -> (r: Self)
        ensures
            r.spec_kind() == kind,
            match r {
                InputConfig::Cam { path, width, height } => path@ == "/dev/video0"@ && width == 640
                    && height == 480,
                InputConfig::Video { path, width, height, speed } => path@
                    == "res/example_video.mp4"@ && width == 640 && height == 480 && speed
                    == Speed::Fps(DEFAULT_VIDEO_FPS),
                InputConfig::Picture { path, width, height } => path@
                    == "res/example_picture.png"@ && width == 640 && height == 480,
                InputConfig::Midi { pattern } => pattern@ == "*"@,
            },
    {
        match kind {
            InputKind::Cam => InputConfig::Cam {
                path: String::from_str("/dev/video0"),
                width: 640,
                height: 480,
            },
            InputKind::Video => InputConfig::Video {
                path: String::from_str("res/example_video.mp4"),
                width: 640,
                height: 480,
                speed: Speed::Fps(DEFAULT_VIDEO_FPS),
            },
            InputKind::Picture => InputConfig::Picture {
                path: String::from_str("res/example_picture.png"),
                width: 640,
                height: 480,
            },
            InputKind::Midi => InputConfig::Midi { pattern: String::from_str("*") },
        }
    }

    pub open spec fn spec_kind(&self) -> InputKind {
        match self {
            InputConfig::Cam { .. } => InputKind::Cam,
            InputConfig::Video { .. } => InputKind::Video,
            InputConfig::Picture { .. } => InputKind::Picture,
            InputConfig::Midi { .. } => InputKind::Midi,
        }
    }

    /// The kind of this input.
    pub fn kind(&self) -> (r: InputKind)
        ensures
            r == self.spec_kind(),
    {
        match self {
            InputConfig::Cam { .. } => InputKind::Cam,
            InputConfig::Video { .. } => InputKind::Video,
            InputConfig::Picture { .. } => InputKind::Picture,
            InputConfig::Midi { .. } => InputKind::Midi,
        }
    }
}

/// How a stage samples a source.
#[derive(Clone, Copy, Debug, PartialEq, Eq, Structural)]
pub enum Sampling {
    Linear,
    Nearest,
    Mipmaps,
}

/// A weak reference to a source of the namespace, by name, with a sampling
/// mode. An empty name means that no source is bound.
#[derive(Debug, PartialEq, Eq)]
pub enum SampledInput {
    Linear(String),
    Nearest(String),
    Mipmaps(String),
}

impl Clone for SampledInput {
    fn clone(&self) -> (r: Self)
        ensures
            r == *self,
    {
        match self {
            SampledInput::Linear(n) => SampledInput::Linear(n.clone()),
            SampledInput::Nearest(n) => SampledInput::Nearest(n.clone()),
            SampledInput::Mipmaps(n) => SampledInput::Mipmaps(n.clone()),
        }
    }
}

impl SampledInput {
    pub open spec fn spec_sampling(&self) -> Sampling {
        match self {
            SampledInput::Linear(_) => Sampling::Linear,
            SampledInput::Nearest(_) => Sampling::Nearest,
            SampledInput::Mipmaps(_) => Sampling::Mipmaps,
        }
    }

    /// The referenced source name.
    pub open spec fn source(&self) -> Seq<char> {
        match self {
            SampledInput::Linear(n) => n@,
            SampledInput::Nearest(n) => n@,
            SampledInput::Mipmaps(n) => n@,
        }
    }

    /// Builds a reference to `name` sampled as `sampling` says.
    pub fn new(sampling: Sampling, name: String) -> (r: Self)
        ensures
            r.spec_sampling() == sampling,
            r.source() == name@,
    {
        match sampling {
            Sampling::Linear => SampledInput::Linear(name),
            Sampling::Nearest => SampledInput::Nearest(name),
            Sampling::Mipmaps => SampledInput::Mipmaps(name),
        }
    }

    /// The sampling mode.
    pub fn sampling(&self) -> (r: Sampling)
        ensures
            r == self.spec_sampling(),
    {
        match self {
            SampledInput::Linear(_) => Sampling::Linear,
            SampledInput::Nearest(_) => Sampling::Nearest,
            SampledInput::Mipmaps(_) => Sampling::Mipmaps,
        }
    }

    /// The referenced source name.
    pub fn name(&self) -> (r: &String)
        ensures
            r@ == self.source(),
    {
        match self {
            SampledInput::Linear(n) => n,
            SampledInput::Nearest(n) => n,
            SampledInput::Mipmaps(n) => n,
        }
    }
}

/// The value of a stage variable; `Float*` components are `f32` bits.
#[derive(Clone, Copy, Debug, PartialEq, Eq, Structural)]
pub enum DataHolder {
    Bool(bool),
    Int(i64),
    Float(u32),
    Float2(u32, u32),
    Float3(u32, u32, u32),
    Float4(u32, u32, u32, u32),
}

impl DataHolder {
    /// How many scalar components an oscillator must drive; a switch has none.
    pub open spec fn spec_dimension(&self) -> nat {
        match self {
            DataHolder::Bool(_) => 0,
            DataHolder::Int(_) => 1,
            DataHolder::Float(_) => 1,
            DataHolder::Float2(..) => 2,
            DataHolder::Float3(..) => 3,
            DataHolder::Float4(..) => 4,
        }
    }

    pub fn dimension(&self) -> (r: usize)
        ensures
            r == self.spec_dimension(),
    {
        match self {
            DataHolder::Bool(_) => 0,
            DataHolder::Int(_) => 1,
            DataHolder::Float(_) => 1,
            DataHolder::Float2(..) => 2,
            DataHolder::Float3(..) => 3,
            DataHolder::Float4(..) => 4,
        }
    }
}

/// Waveform of a low-frequency oscillator.
#[derive(Clone, Copy, Debug, PartialEq, Eq, Structural)]
pub enum LfoKind {
    Sine,
    Square,
    Saw,
    Triangle,
}

/// A low-frequency oscillator; the four numbers are `f64` bits.
#[derive(Clone, Copy, Debug, PartialEq, Eq, Structural)]
pub struct Lfo {
    pub kind: LfoKind,
    pub numerator: u64,
    pub denominator: u64,
    pub phase: u64,
    pub amplitude: u64,
    pub signed: bool,
}

/// How a variable's value is computed over musical time.
#[derive(Clone, Copy, Debug, PartialEq, Eq, Structural)]
pub enum Automation {
    Off,
    Lfo(Lfo),
    Lfo2d(Lfo, Lfo),
    Lfo3d(Lfo, Lfo, Lfo),
    Lfo4d(Lfo, Lfo, Lfo, Lfo),
}

/// The bits of the `f64` 1.0 and 8.0: a new oscillator runs at one cycle
/// every eight beats.
pub const DEFAULT_LFO_NUMERATOR: u64 = 0x3ff0_0000_0000_0000;

pub const DEFAULT_LFO_DENOMINATOR: u64 = 0x4020_0000_0000_0000;

impl Lfo {
    /// A new oscillator: a sine at one cycle every eight beats, no phase
    /// shift, zero amplitude, unsigned.
    pub open spec fn spec_default() -> Lfo {
        Lfo {
            kind: LfoKind::Sine,
            numerator: DEFAULT_LFO_NUMERATOR,
            denominator: DEFAULT_LFO_DENOMINATOR,
            phase: 0,
            amplitude: 0,
            signed: false,
        }
    }

    pub fn default_lfo() -> (r: Lfo)
        ensures
            r == Lfo::spec_default(),
    {
        Lfo {
            kind: LfoKind::Sine,
            numerator: DEFAULT_LFO_NUMERATOR,
            denominator: DEFAULT_LFO_DENOMINATOR,
            phase: 0,
            amplitude: 0,
            signed: false,
        }
    }
}

impl Automation {
    /// The automation that a value of `dimension` components starts with:
    /// one new oscillator per component, or none for a value that no
    /// oscillator can drive.
    pub fn for_dimension(dimension: usize) -> (r: Automation)
        ensures
            1 <= dimension <= 4 ==> r.spec_arity() == dimension,
            !(1 <= dimension <= 4) ==> r == Automation::Off,
            r.spec_lfo(0) is Some ==> r.spec_lfo(0) == Some(Lfo::spec_default()),
            r.spec_lfo(1) is Some ==> r.spec_lfo(1) == Some(Lfo::spec_default()),
            r.spec_lfo(2) is Some ==> r.spec_lfo(2) == Some(Lfo::spec_default()),
            r.spec_lfo(3) is Some ==> r.spec_lfo(3) == Some(Lfo::spec_default()),
    {
        let l = Lfo::default_lfo();
        if dimension == 1 {
            Automation::Lfo(l)
        } else if dimension == 2 {
            Automation::Lfo2d(l, l)
        } else if dimension == 3 {
            Automation::Lfo3d(l, l, l)
        } else if dimension == 4 {
            Automation::Lfo4d(l, l, l, l)
        } else {
            Automation::Off
        }
    }

    /// The oscillator that drives component `index`, if there is one.
    pub open spec fn spec_lfo(&self, index: int) -> Option<Lfo> {
        match *self {
            Automation::Off => None,
            Automation::Lfo(a) => if index == 0 {
                Some(a)
            } else {
                None
            },
            Automation::Lfo2d(a, b) => if index == 0 {
                Some(a)
            } else if index == 1 {
                Some(b)
            } else {
                None
            },
            Automation::Lfo3d(a, b, c) => if index == 0 {
                Some(a)
            } else if index == 1 {
                Some(b)
            } else if index == 2 {
                Some(c)
            } else {
                None
            },
            Automation::Lfo4d(a, b, c, d) => if index == 0 {
                Some(a)
            } else if index == 1 {
                Some(b)
            } else if index == 2 {
                Some(c)
            } else if index == 3 {
                Some(d)
            } else {
                None
            },
        }
    }

    /// This automation with an oscillator replaced by `lfo`: a single
    /// oscillator is replaced whatever `index` says; with several, the one of
    /// component `index`, and none if there is no such component.
    pub fn with_lfo(&self, index: usize, lfo: Lfo) -> (r: Automation)
        ensures
            r.spec_arity() == self.spec_arity(),
            *self is Off ==> r == Automation::Off,
            *self is Lfo ==> r == Automation::Lfo(lfo),
            self.spec_arity() >= 2 ==> forall|i: int|
                #![trigger r.spec_lfo(i)]
                0 <= i < 4 ==> r.spec_lfo(i) == if i == index && self.spec_lfo(i) is Some {
                    Some(lfo)
                } else {
                    self.spec_lfo(i)
                },
    {
        match *self {
            Automation::Off => Automation::Off,
            Automation::Lfo(_) => Automation::Lfo(lfo),
            Automation::Lfo2d(a, b) => if index == 0 {
                Automation::Lfo2d(lfo, b)
            } else if index == 1 {
                Automation::Lfo2d(a, lfo)
            } else {
                Automation::Lfo2d(a, b)
            },
            Automation::Lfo3d(a, b, c) => if index == 0 {
                Automation::Lfo3d(lfo, b, c)
            } else if index == 1 {
                Automation::Lfo3d(a, lfo, c)
            } else if index == 2 {
                Automation::Lfo3d(a, b, lfo)
            } else {
                Automation::Lfo3d(a, b, c)
            },
            Automation::Lfo4d(a, b, c, d) => if index == 0 {
                Automation::Lfo4d(lfo, b, c, d)
            } else if index == 1 {
                Automation::Lfo4d(a, lfo, c, d)
            } else if index == 2 {
                Automation::Lfo4d(a, b, lfo, d)
            } else if index == 3 {
                Automation::Lfo4d(a, b, c, lfo)
            } else {
                Automation::Lfo4d(a, b, c, d)
            },
        }
    }

    /// How many oscillators the automation holds.
    pub open spec fn spec_arity(&self) -> nat {
        match self {
            Automation::Off => 0,
            Automation::Lfo(..) => 1,
            Automation::Lfo2d(..) => 2,
            Automation::Lfo3d(..) => 3,
            Automation::Lfo4d(..) => 4,
        }
    }

    pub fn arity(&self) -> (r: usize)
        ensures
            r == self.spec_arity(),
    {
        match self {
            Automation::Off => 0,
            Automation::Lfo(..) => 1,
            Automation::Lfo2d(..) => 2,
            Automation::Lfo3d(..) => 3,
            Automation::Lfo4d(..) => 4,
        }
    }

    /// Whether this automation may drive `value`: no automation always may,
    /// an oscillator set only with one oscillator per component.
    pub open spec fn spec_fits(&self, value: DataHolder) -> bool {
        self.spec_arity() == 0 || self.spec_arity() == value.spec_dimension()
    }

    pub fn fits(&self, value: &DataHolder) -> (r: bool)
        ensures
            r == self.spec_fits(*value),
    {
        let a = self.arity();
        a == 0 || a == value.dimension()
    }
}

/// Geometry of a filter: a screen rectangle (`f32` bits) or a particle count.
#[derive(Clone, Copy, Debug, PartialEq, Eq, Structural)]
pub enum FilterMode {
    Rectangle(u32, u32, u32, u32),
    Particles(usize),
}

impl FilterMode {
    /// These parameters with `value` written in: a four-component value sets
    /// a rectangle's corners, an integer a particle count if it is one; any
    /// other value leaves them unchanged.
    pub fn with_params(&self, value: DataHolder) -> (r: FilterMode)
        ensures
            r == match (*self, value) {
                (FilterMode::Rectangle(..), DataHolder::Float4(a, b, c, d)) => FilterMode::Rectangle(
                    a,
                    b,
                    c,
                    d,
                ),
                (FilterMode::Particles(_), DataHolder::Int(n)) => if 0 <= n <= usize::MAX {
                    FilterMode::Particles(n as usize)
                } else {
                    *self
                },
                _ => *self,
            },
    {
        match (*self, value) {
            (FilterMode::Rectangle(..), DataHolder::Float4(a, b, c, d)) => FilterMode::Rectangle(
                a,
                b,
                c,
                d,
            ),
            (FilterMode::Particles(_), DataHolder::Int(n)) => {
                if n >= 0 && n as u64 <= usize::MAX as u64 {
                    FilterMode::Particles(n as usize)
                } else {
                    *self
                }
            },
            _ => *self,
        }
    }
}

/// Storage precision of a stage's target texture.
#[derive(Clone, Copy, Debug, PartialEq, Eq, Structural)]
pub enum Precision {
    U8,
    F16,
    F32,
}

/// A stage input: the shader's uniform name and the source it samples.
#[derive(Debug, PartialEq, Eq)]
pub struct InputSlot {
    pub uniform: String,
    pub source: SampledInput,
}

impl Clone for InputSlot {
    fn clone(&self) -> (r: Self)
        ensures
            r == *self,
    {
        InputSlot { uniform: self.uniform.clone(), source: self.source.clone() }
    }
}

/// A stage variable: its name, literal value and automation.
#[derive(Debug, PartialEq, Eq)]
pub struct VariableSlot {
    pub name: String,
    pub value: DataHolder,
    pub automation: Automation,
}

impl Clone for VariableSlot {
    fn clone(&self) -> (r: Self)
        ensures
            r == *self,
    {
        VariableSlot { name: self.name.clone(), value: self.value, automation: self.automation }
    }
}

/// One compositing step of the render chain.
#[derive(Debug, PartialEq, Eq)]
pub struct RenderStageConfig {
    pub name: String,
    pub filter: String,
    pub filter_mode_params: FilterMode,
    pub inputs: Vec<InputSlot>,
    pub variables: Vec<VariableSlot>,
    pub precision: Precision,
}

/// Whether no two slots of `inputs` share a uniform name.
pub open spec fn input_keys_distinct(inputs: Seq<InputSlot>) -> bool {
    forall|i: int, j: int|
        0 <= i < j < inputs.len() ==> #[trigger] inputs[i].uniform@ != #[trigger] inputs[j].uniform@
}

/// Whether no two slots of `variables` share a name.
pub open spec fn variable_keys_distinct(variables: Seq<VariableSlot>) -> bool {
    forall|i: int, j: int|
        0 <= i < j < variables.len() ==> #[trigger] variables[i].name@
            != #[trigger] variables[j].name@
}

/// Whether a stage's inputs and variables are each keyed by distinct names.
pub open spec fn stage_keyed(s: RenderStageConfig) -> bool {
    input_keys_distinct(s.inputs@) && variable_keys_distinct(s.variables@)
}

/// Copies a list of input slots.
pub fn clone_inputs(v: &Vec<InputSlot>) -> (r: Vec<InputSlot>)
    ensures
        r@ == v@,
{
    let mut r: Vec<InputSlot> = Vec::new();
    let mut i: usize = 0;
    while i < v.len()
        invariant
            i <= v.len(),
            r@ == v@.take(i as int),
        decreases v.len() - i,
    {
        r.push(v[i].clone());
        i = i + 1;
        assert(r@ =~= v@.take(i as int));
    }
    assert(v@.take(v.len() as int) =~= v@);
    r
}

/// Copies a list of variable slots.
pub fn clone_variables(v: &Vec<VariableSlot>) -> (r: Vec<VariableSlot>)
    ensures
        r@ == v@,
{
    let mut r: Vec<VariableSlot> = Vec::new();
    let mut i: usize = 0;
    while i < v.len()
        invariant
            i <= v.len(),
            r@ == v@.take(i as int),
        decreases v.len() - i,
    {
        r.push(v[i].clone());
        i = i + 1;
        assert(r@ =~= v@.take(i as int));
    }
    assert(v@.take(v.len() as int) =~= v@);
    r
}

impl RenderStageConfig {
    /// Whether `self` and `other` hold the same configuration.
    pub open spec fn same_as(&self, other: &RenderStageConfig) -> bool {
        &&& self.name == other.name
        &&& self.filter == other.filter
        &&& self.filter_mode_params == other.filter_mode_params
        &&& self.inputs@ == other.inputs@
        &&& self.variables@ == other.variables@
        &&& self.precision == other.precision
    }
}

impl RenderStageConfig {
    /// Tells whether no two inputs and no two variables share a name.
    pub fn is_keyed(&self) -> (r: bool)
        ensures
            r == stage_keyed(*self),
    {
        let mut i: usize = 0;
        while i < self.inputs.len()
            invariant
                i <= self.inputs.len(),
                forall|a: int, b: int|
                    0 <= a < i && a < b < self.inputs@.len() ==> #[trigger] self.inputs@[a].uniform@
                        != #[trigger] self.inputs@[b].uniform@,
            decreases self.inputs.len() - i,
        {
            let mut j: usize = i + 1;
            while j < self.inputs.len()
                invariant
                    i < self.inputs.len(),
                    i < j <= self.inputs.len(),
                    forall|a: int, b: int|
                        0 <= a < i && a < b < self.inputs@.len() ==> #[trigger] self.inputs@[a].uniform@
                            != #[trigger] self.inputs@[b].uniform@,
                    forall|b: int|
                        i < b < j ==> self.inputs@[i as int].uniform@ != #[trigger] self.inputs@[b].uniform@,
                decreases self.inputs.len() - j,
            {
                if self.inputs[i].uniform == self.inputs[j].uniform {
                    return false;
                }
                j = j + 1;
            }
            i = i + 1;
        }
        let mut i: usize = 0;
        while i < self.variables.len()
            invariant
                input_keys_distinct(self.inputs@),
                i <= self.variables.len(),
                forall|a: int, b: int|
                    0 <= a < i && a < b < self.variables@.len() ==> #[trigger] self.variables@[a].name@
                        != #[trigger] self.variables@[b].name@,
            decreases self.variables.len() - i,
        {
            let mut j: usize = i + 1;
            while j < self.variables.len()
                invariant
                    i < self.variables.len(),
                    i < j <= self.variables.len(),
                    forall|a: int, b: int|
                        0 <= a < i && a < b < self.variables@.len() ==> #[trigger] self.variables@[a].name@
                            != #[trigger] self.variables@[b].name@,
                    forall|b: int|
                        i < b < j ==> self.variables@[i as int].name@ != #[trigger] self.variables@[b].name@,
                decreases self.variables.len() - j,
            {
                if self.variables[i].name == self.variables[j].name {
                    return false;
                }
                j = j + 1;
            }
            i = i + 1;
        }
        true
    }
}

impl Clone for RenderStageConfig {
    fn clone(&self) -> (r: Self)
        ensures
            r.same_as(self),
    {
        let inputs = clone_inputs(&self.inputs);
        let variables = clone_variables(&self.variables);
        RenderStageConfig {
            name: self.name.clone(),
            filter: self.filter.clone(),
            filter_mode_params: self.filter_mode_params,
            inputs,
            variables,
            precision: self.precision,
        }
    }
}

/// A named input of the project.
#[derive(Debug, PartialEq, Eq)]
pub struct NamedInput {
    pub name: String,
    pub config: InputConfig,
}

impl Clone for NamedInput {
    fn clone(&self) -> (r: Self)
        ensures
            r == *self,
    {
        NamedInput { name: self.name.clone(), config: self.config.clone() }
    }
}

/// Output window settings; `target_fps` is the bits of an `f32`, and
/// captured frames go to the directory `screenshot_path`.
#[derive(Debug, PartialEq, Eq)]
pub struct ViewConfig {
    pub width: usize,
    pub height: usize,
    pub target_fps: u32,
    pub dynamic: bool,
    pub vsync: bool,
    pub screenshot: bool,
    pub screenshot_path: String,
    pub fullscreen: bool,
    pub locked_speed: bool,
}

impl Clone for ViewConfig {
    fn clone(&self) -> (r: Self)
        ensures
            r == *self,
    {
        ViewConfig {
            width: self.width,
            height: self.height,
            target_fps: self.target_fps,
            dynamic: self.dynamic,
            vsync: self.vsync,
            screenshot: self.screenshot,
            screenshot_path: self.screenshot_path.clone(),
            fullscreen: self.fullscreen,
            locked_speed: self.locked_speed,
        }
    }
}

/// Where the render process listens for orders.
#[derive(Debug, PartialEq, Eq)]
pub struct ServerConfig {
    pub ip: String,
    pub port: usize,
    pub enable: bool,
}

impl Clone for ServerConfig {
    fn clone(&self) -> (r: Self)
        ensures
            r == *self,
    {
        ServerConfig { ip: self.ip.clone(), port: self.port, enable: self.enable }
    }
}

/// One whole project; `bpm` is the bits of an `f32`.
#[derive(Debug, PartialEq, Eq)]
pub struct ProjectConfig {
    pub bpm: u32,
    pub view: ViewConfig,
    pub server: ServerConfig,
    pub inputs: Vec<NamedInput>,
    pub render_chain: Vec<RenderStageConfig>,
    pub final_stage: RenderStageConfig,
}

/// The bits of the `f32` values of a new project: its tempo (89 beats per
/// minute), its frame rate (60 per second) and the unit of its rectangles.
pub const NEW_PROJECT_BPM: u32 = 0x42b2_0000;

pub const NEW_PROJECT_FPS: u32 = 0x4270_0000;

pub const UNIT: u32 = 0x3f80_0000;

impl ProjectConfig {
    /// A new project: one stage "Patterns" drawing `generate/dots` over the
    /// whole frame, shown by a final stage "FinalStage" (`generic/copy`)
    /// that samples it linearly; no input; 89 beats per minute; a 640 by 480
    /// view at 60 frames per second, resolution following the window, vsync
    /// on, screenshots off (to `output/`); a local server on port 3000, off.
    pub fn new_project() -> (r: ProjectConfig)
        ensures
            r.bpm == NEW_PROJECT_BPM,
            r.view.width == 640 && r.view.height == 480,
            r.view.target_fps == NEW_PROJECT_FPS,
            r.view.dynamic && r.view.vsync && !r.view.screenshot,
            r.view.screenshot_path@ == "output/"@,
            !r.view.fullscreen && !r.view.locked_speed,
            r.server.ip@ == "localhost"@ && r.server.port == 3000 && !r.server.enable,
            r.inputs@.len() == 0,
            r.render_chain@.len() == 1,
            r.render_chain@[0].name@ == "Patterns"@,
            r.render_chain@[0].filter@ == "generate/dots"@,
            r.render_chain@[0].filter_mode_params == FilterMode::Rectangle(0, 0, UNIT, UNIT),
            r.render_chain@[0].inputs@.len() == 0,
            r.render_chain@[0].variables@.len() == 0,
            r.render_chain@[0].precision == Precision::F32,
            r.final_stage.name@ == "FinalStage"@,
            r.final_stage.filter@ == "generic/copy"@,
            r.final_stage.filter_mode_params == FilterMode::Rectangle(0, 0, UNIT, UNIT),
            r.final_stage.inputs@.len() == 1,
            r.final_stage.inputs@[0].uniform@ == "iChannel0"@,
            r.final_stage.inputs@[0].source.spec_sampling() == Sampling::Linear,
            r.final_stage.inputs@[0].source.source() == "Patterns"@,
            r.final_stage.variables@.len() == 0,
            r.final_stage.precision == Precision::F32,
    {
        let patterns = RenderStageConfig {
            name: String::from_str("Patterns"),
            filter: String::from_str("generate/dots"),
            filter_mode_params: FilterMode::Rectangle(0, 0, UNIT, UNIT),
            inputs: Vec::new(),
            variables: Vec::new(),
            precision: Precision::F32,
        };
        let mut shown: Vec<InputSlot> = Vec::new();
        shown.push(
            InputSlot {
                uniform: String::from_str("iChannel0"),
                source: SampledInput::Linear(String::from_str("Patterns")),
            },
        );
        let final_stage = RenderStageConfig {
            name: String::from_str("FinalStage"),
            filter: String::from_str("generic/copy"),
            filter_mode_params: FilterMode::Rectangle(0, 0, UNIT, UNIT),
            inputs: shown,
            variables: Vec::new(),
            precision: Precision::F32,
        };
        let mut chain: Vec<RenderStageConfig> = Vec::new();
        chain.push(patterns);
        ProjectConfig {
            bpm: NEW_PROJECT_BPM,
            view: ViewConfig {
                width: 640,
                height: 480,
                target_fps: NEW_PROJECT_FPS,
                dynamic: true,
                vsync: true,
                screenshot: false,
                screenshot_path: String::from_str("output/"),
                fullscreen: false,
                locked_speed: false,
            },
            server: ServerConfig { ip: String::from_str("localhost"), port: 3000, enable: false },
            inputs: Vec::new(),
            render_chain: chain,
            final_stage,
        }
    }
}

} // verus!
