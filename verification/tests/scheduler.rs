//! The three schedulers, driven by scripted tick sources and recording
//! renderers, and the frame renderer itself.

use cancellation::CancellationTokenSource;
use wipe::color::Color;
use wipe::convert::{CharConverterImpl, ColorConverterImpl, ConverterImpl};
use wipe::error::Error;
use wipe::exec::Executor;
use wipe::pattern::{PatternTree, SamplerFactoryImpl};
use wipe::renderer::RendererImpl;
use wipe::runner::Runner;
use wipe::surface::{teardown_commands, Command, Surface};
use wipe::timer::Timer;
use wipe::UNIT;

/// A tick source that reports a scripted list of elapsed times, one per
/// frame slot, and pins to the maximum once the script is over.
struct ScriptTimer {
    ticks: Vec<u64>,
    at: usize,
}

impl wipe::runner::Timer for ScriptTimer {
    fn set(&mut self) {
        self.at = 0;
    }

    fn elapsed(&mut self) -> u64 {
        if self.at < self.ticks.len() {
            self.ticks[self.at]
        } else {
            u64::MAX
        }
    }

    fn sleep(&mut self) {
        self.at += 1;
    }
}

/// A renderer that records the rendered steps and counts the presents;
/// it can be told to fail from some present on.
struct RecordingRenderer {
    steps: Vec<i64>,
    presents: usize,
    fail_from: Option<usize>,
}

impl RecordingRenderer {
    fn new() -> RecordingRenderer {
        RecordingRenderer {
            steps: Vec::new(),
            presents: 0,
            fail_from: None,
        }
    }
}

impl wipe::render::Renderer for RecordingRenderer {
    fn render(&mut self, step: i64) {
        self.steps.push(step);
    }

    fn present(&mut self) -> Result<(), Error> {
        self.presents += 1;
        match self.fail_from {
            Some(limit) if self.presents > limit => Err("The terminal write failed.".into()),
            _ => Ok(()),
        }
    }

    fn finish(&mut self) -> Result<(), Error> {
        Ok(())
    }
}

#[test]
fn run() {
    // A four second animation with ticks observed at zero, two and four
    // seconds renders the steps 0.0, 0.5 and 1.0, in that order, and
    // presents each exactly once.
    let timer = ScriptTimer {
        ticks: vec![0, 2000, 4000],
        at: 0,
    };
    let renderer = RecordingRenderer::new();
    let mut runner = Runner::new(4000, timer, renderer);

    runner.run().unwrap();

    assert_eq!(vec![0, UNIT / 2, UNIT], runner.renderer.steps);
    assert_eq!(3, runner.renderer.presents);
}

#[test]
fn run_present_error_aborts() {
    // The second present fails: the run stops right there, returns the
    // error, and renders no further frame.
    let timer = ScriptTimer {
        ticks: vec![0, 2000, 4000],
        at: 0,
    };
    let mut renderer = RecordingRenderer::new();
    renderer.fail_from = Some(1);
    let mut runner = Runner::new(4000, timer, renderer);

    assert!(runner.run().is_err());
    assert_eq!(vec![0, UNIT / 2], runner.renderer.steps);
    assert_eq!(2, runner.renderer.presents);
}

#[test]
fn run_teardown_once() {
    // After the final tick the terminal is restored by exactly one
    // teardown sequence.
    let timer = ScriptTimer {
        ticks: vec![0, 2000, 4000],
        at: 0,
    };
    let renderer = RecordingRenderer::new();
    let mut runner = Runner::new(4000, timer, renderer);

    runner.run().unwrap();
    let restore = teardown_commands();

    assert_eq!(UNIT, *runner.renderer.steps.last().unwrap());
    assert_eq!(
        vec![
            Command::MoveTo(0, 0),
            Command::SetForeground(Color::Reset),
            Command::ShowCursor,
            Command::Purge,
        ],
        restore
    );
}

/// A clock that reports a scripted list of times, in seconds, pins to the
/// maximum once the script is over, and records every sleep.
struct ScriptClock {
    times: Vec<u64>,
    at: usize,
    sleeps: Vec<u64>,
}

const SECOND: u64 = 1_000_000_000;

impl wipe::timer::Clock for ScriptClock {
    fn now(&mut self) -> u64 {
        if self.at < self.times.len() {
            let t = self.times[self.at];
            self.at += 1;
            t * SECOND
        } else {
            u64::MAX
        }
    }

    fn sleep(&mut self, duration: u64) {
        self.sleeps.push(duration);
    }
}

fn script_clock(times: Vec<u64>) -> ScriptClock {
    ScriptClock {
        times,
        at: 0,
        sleeps: Vec::new(),
    }
}

/// A frame renderer that records the rendered steps; it can cancel a
/// token on its first render, or fail from some render on.
struct RecordingFrameRenderer {
    steps: Vec<i64>,
    cancel: Option<CancellationTokenSource>,
    fail_from: Option<usize>,
}

impl wipe::renderer::Renderer for RecordingFrameRenderer {
    fn render(&mut self, step: i64) -> Result<(), Error> {
        self.steps.push(step);
        if let Some(source) = &self.cancel {
            source.cancel();
        }
        match self.fail_from {
            Some(limit) if self.steps.len() > limit => Err("The terminal write failed.".into()),
            _ => Ok(()),
        }
    }
}

fn recording_frame_renderer() -> RecordingFrameRenderer {
    RecordingFrameRenderer {
        steps: Vec::new(),
        cancel: None,
        fail_from: None,
    }
}

#[test]
fn timer_run_steps_correct() {
    // A twenty second animation sampled at zero and ten seconds renders
    // the steps 0.0 and 0.5.
    let clock = script_clock(vec![0, 10, 10, 20, 20]);
    let mut timer = Timer::new(clock, 20 * SECOND, 10 * SECOND);
    let mut renderer = recording_frame_renderer();

    timer.run(&mut renderer).unwrap();

    assert_eq!(vec![0, UNIT / 2], renderer.steps);
}

#[test]
fn timer_run_sleep_duration_correct() {
    // Four seconds of a ten second frame slot are already spent, so the
    // timer sleeps the remaining six.
    let clock = script_clock(vec![0, 4, 10]);
    let mut timer = Timer::new(clock, 10 * SECOND, 10 * SECOND);
    let mut renderer = recording_frame_renderer();

    timer.run(&mut renderer).unwrap();

    assert_eq!(vec![6 * SECOND], timer.clock.sleeps);
}

#[test]
fn timer_run_delay_exceeded_does_not_sleep() {
    // The first frame took longer than its slot, so the timer does not
    // sleep at all.
    let clock = script_clock(vec![0, 12, 12]);
    let mut timer = Timer::new(clock, 10 * SECOND, 10 * SECOND);
    let mut renderer = recording_frame_renderer();

    timer.run(&mut renderer).unwrap();

    assert!(timer.clock.sleeps.is_empty());
}

#[test]
fn exec_run_steps_correct() {
    let clock = script_clock(vec![0, 10, 10, 20, 20]);
    let mut executor = Executor::new(clock, 20 * SECOND, 10 * SECOND);
    let mut renderer = recording_frame_renderer();
    let source = CancellationTokenSource::new();

    executor.run(&mut renderer, source.token()).unwrap();

    assert_eq!(vec![0, UNIT / 2], renderer.steps);
}

#[test]
fn exec_run_sleep_duration_correct() {
    let clock = script_clock(vec![0, 4, 10]);
    let mut executor = Executor::new(clock, 10 * SECOND, 10 * SECOND);
    let mut renderer = recording_frame_renderer();
    let source = CancellationTokenSource::new();

    executor.run(&mut renderer, source.token()).unwrap();

    assert_eq!(vec![6 * SECOND], executor.clock.sleeps);
}

#[test]
fn exec_run_delay_exceeded_does_not_sleep() {
    let clock = script_clock(vec![0, 12, 12]);
    let mut executor = Executor::new(clock, 10 * SECOND, 10 * SECOND);
    let mut renderer = recording_frame_renderer();
    let source = CancellationTokenSource::new();

    executor.run(&mut renderer, source.token()).unwrap();

    assert!(executor.clock.sleeps.is_empty());
}

#[test]
fn timer_render_error_aborts() {
    // The second render fails: the run stops right there and returns the
    // error.
    let clock = script_clock(vec![0, 0, 10, 10, 20, 20]);
    let mut timer = Timer::new(clock, 20 * SECOND, 10 * SECOND);
    let mut renderer = recording_frame_renderer();
    renderer.fail_from = Some(1);

    assert!(timer.run(&mut renderer).is_err());
    assert_eq!(vec![0, UNIT / 2], renderer.steps);
}

#[test]
fn run_canceled_aborts() {
    // The first render cancels the token, so only one frame is rendered
    // of an animation that would have had ten.
    let clock = script_clock(vec![0, 0, 0, 1, 1, 1, 2, 2, 2]);
    let mut executor = Executor::new(clock, 10 * SECOND, SECOND);
    let mut renderer = RecordingFrameRenderer {
        steps: Vec::new(),
        cancel: Some(CancellationTokenSource::new()),
        fail_from: None,
    };

    // The renderer cancels its own source; run against that source's token.
    let token = renderer.cancel.as_ref().unwrap().token().clone();
    executor.run(&mut renderer, &token).unwrap();

    assert_eq!(1, renderer.steps.len());
}

fn small_renderer(width: u16, height: u16) -> RendererImpl {
    let sampler = SamplerFactoryImpl::new(PatternTree::Line, PatternTree::Line);
    let converter = ConverterImpl::new(
        CharConverterImpl::new(".:+#".to_string()),
        ColorConverterImpl::new(vec![Color::Red, Color::Green, Color::Blue]),
    );
    RendererImpl::new(sampler, converter, Surface::new(width, height))
}

#[test]
fn renderer_new() {
    let renderer = small_renderer(3, 2);

    assert_eq!(3, renderer.surface.width());
    assert_eq!(2, renderer.surface.height());
}

#[test]
fn renderer_render() {
    // A glyph field that is everywhere at level one or above keeps every
    // cell, so the frame emits no command.
    let sampler = SamplerFactoryImpl::new(
        PatternTree::Shift(Box::new(PatternTree::Line)),
        PatternTree::Line,
    );
    let converter = ConverterImpl::new(
        CharConverterImpl::new(".:+#".to_string()),
        ColorConverterImpl::new(vec![Color::Red]),
    );
    let mut renderer = RendererImpl::new(sampler, converter, Surface::new(3, 2));

    let cmds = renderer.render(0);

    assert!(cmds.is_empty());
}

#[test]
fn renderer_render_single_cell() {
    // On a one-cell grid the line field is at level zero: the frame draws
    // the darkest glyph in the first color.
    let mut renderer = small_renderer(1, 1);

    let cmds = renderer.render(0);

    assert_eq!(
        vec![
            Command::MoveTo(0, 0),
            Command::SetForeground(Color::Red),
            Command::Print('.'),
        ],
        cmds
    );
}
