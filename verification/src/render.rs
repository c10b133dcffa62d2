//! The render loop: what one pass through it asks of the device, and how many
//! passes it makes before the close flag ends it.

use crate::command::{Command, CommandView};
use crate::processor::{process_events, requests_close, viewport_updates, WindowEvent};
use crate::window::Window;
use vstd::prelude::*;

verus! {

/// The red part of the colour that every frame is cleared to: the bits of 0.2.
pub const CLEAR_RED: u32 = 0x3e4c_cccd;

/// The green part of the clear colour: the bits of 0.3.
pub const CLEAR_GREEN: u32 = 0x3e99_999a;

/// The blue part of the clear colour: the bits of 0.3.
pub const CLEAR_BLUE: u32 = 0x3e99_999a;

/// The alpha part of the clear colour: the bits of 1.0.
pub const CLEAR_ALPHA: u32 = 0x3f80_0000;

/// The number of vertices that a frame draws.
pub const DRAW_VERTEX_COUNT: i32 = 3;

/// What a frame draws, and with which objects of the device.
#[derive(Clone, Copy, Debug, PartialEq, Eq)]
pub struct RenderConfig {
    /// Whether a frame draws the triangle at all.
    pub draw_enabled: bool,
    /// Whether the draw call selects `program` first.
    pub use_shaders: bool,
    /// The linked program to draw with.
    pub program: u32,
    /// The vertex array to draw from.
    pub vao: u32,
}

/// Whether the loop goes on.
#[derive(Clone, Copy, Debug, PartialEq, Eq)]
pub enum LoopState {
    Running,
    Closed,
}

/// The state that a close flag puts the loop in.
pub open spec fn state_of(closing: bool) -> LoopState {
    if closing {
        LoopState::Closed
    } else {
        LoopState::Running
    }
}

/// The commands that clear a frame.
pub open spec fn clear_commands() -> Seq<CommandView> {
    seq![
        CommandView::ClearColor {
            red: CLEAR_RED,
            green: CLEAR_GREEN,
            blue: CLEAR_BLUE,
            alpha: CLEAR_ALPHA,
        },
        CommandView::ClearColorBuffer,
    ]
}

/// The commands that draw the triangle, as far as the configuration asks.
pub open spec fn draw_commands(config: RenderConfig) -> Seq<CommandView> {
    let draw = seq![
        CommandView::BindVertexArray { array: config.vao },
        CommandView::DrawTriangles { first: 0, count: DRAW_VERTEX_COUNT },
    ];
    if !config.draw_enabled {
        Seq::empty()
    } else if config.use_shaders {
        seq![CommandView::UseProgram { program: config.program }] + draw
    } else {
        draw
    }
}

/// The commands that end a frame: show it, then let new input arrive.
pub open spec fn present_commands() -> Seq<CommandView> {
    seq![CommandView::SwapBuffers, CommandView::PollEvents]
}

/// Everything one pass through the loop asks for, in order: the viewport
/// updates that the pending events call for, the clear, the draw, the swap and
/// the poll.
pub open spec fn frame_commands(events: Seq<WindowEvent>, config: RenderConfig) -> Seq<
    CommandView,
> {
    viewport_updates(events) + clear_commands() + draw_commands(config) + present_commands()
}

/// The event batches of a recording, one for each pass.
pub open spec fn batches(passes: Seq<Vec<WindowEvent>>) -> Seq<Seq<WindowEvent>> {
    passes.map_values(|events: Vec<WindowEvent>| events@)
}

/// The close flag once the first `k` batches have been offered to a loop that
/// started with the flag at `closing`: set at the start, or by one of them.
pub open spec fn closing_after(closing: bool, passes: Seq<Seq<WindowEvent>>, k: int) -> bool {
    closing || exists|i: int| 0 <= i < k && i < passes.len() && requests_close(#[trigger] passes[i])
}

/// Whether a loop that starts with the close flag at `closing` and is fed
/// `passes`, one batch for each pass, makes exactly `frames` passes.
///
/// It makes none if the flag is set at the start. Otherwise it goes on while
/// no batch has asked to close, and stops short of the end of `passes` only
/// right after a batch that did.
pub open spec fn renders(closing: bool, passes: Seq<Seq<WindowEvent>>, frames: int) -> bool {
    if closing {
        frames == 0
    } else {
        &&& 0 <= frames <= passes.len()
        &&& forall|i: int| 0 <= i < frames - 1 ==> !requests_close(#[trigger] passes[i])
        &&& frames < passes.len() ==> frames > 0 && requests_close(passes[frames - 1])
    }
}

/// Whether `command` stands at exactly one place in `commands`.
pub open spec fn occurs_once(commands: Seq<CommandView>, command: CommandView) -> bool {
    exists|i: int|
        {
            &&& 0 <= i < commands.len()
            &&& #[trigger] commands[i] == command
            &&& forall|j: int|
                0 <= j < commands.len() && #[trigger] commands[j] == command ==> j == i
        }
}

/// Every command that the events of a frame add is a viewport command.
pub proof fn lemma_viewport_updates_are_viewports(events: Seq<WindowEvent>)
    ensures
        forall|i: int|
            0 <= i < viewport_updates(events).len() ==> #[trigger] viewport_updates(
                events,
            )[i] is Viewport,
    decreases events.len(),
{
    if events.len() > 0 {
        lemma_viewport_updates_are_viewports(events.drop_last());
    }
}

/// Whatever events are pending and whatever is drawn, one pass through the
/// loop clears the colour buffer exactly once and swaps the buffers exactly
/// once.
pub proof fn lemma_frame_clears_and_swaps_once(events: Seq<WindowEvent>, config: RenderConfig)
    ensures
        occurs_once(frame_commands(events, config), CommandView::ClearColorBuffer),
        occurs_once(frame_commands(events, config), CommandView::SwapBuffers),
{
    let updates = viewport_updates(events);
    let frame = frame_commands(events, config);
    lemma_viewport_updates_are_viewports(events);
    assert forall|j: int| 0 <= j < updates.len() implies frame[j] is Viewport by {
        assert(frame[j] == updates[j]);
    }
    let clear = updates.len() as int + 1;
    assert(frame[clear] == clear_commands()[1]);
    assert forall|j: int|
        0 <= j < frame.len() && frame[j] == CommandView::ClearColorBuffer implies j == clear by {
        if j >= updates.len() + 2 {
            let rest = draw_commands(config) + present_commands();
            assert(frame[j] == rest[j - updates.len() - 2]);
        } else if j == updates.len() {
            assert(frame[j] == clear_commands()[0]);
        }
    }
    let swap = frame.len() as int - 2;
    assert(frame[swap] == present_commands()[0]);
    assert forall|j: int|
        0 <= j < frame.len() && frame[j] == CommandView::SwapBuffers implies j == swap by {
        if j == frame.len() - 1 {
            assert(frame[j] == present_commands()[1]);
        } else if j == swap {
        } else if j >= updates.len() + 2 {
            assert(frame[j] == draw_commands(config)[j - updates.len() - 2]);
        } else if j >= updates.len() {
            assert(frame[j] == clear_commands()[j - updates.len()]);
        }
    }
}

/// The number of passes that the loop makes over a recording is determined:
/// no two numbers fit the same start and the same batches.
pub proof fn lemma_frame_count_is_unique(
    closing: bool,
    passes: Seq<Seq<WindowEvent>>,
    first: int,
    second: int,
)
    requires
        renders(closing, passes, first),
        renders(closing, passes, second),
    ensures
        first == second,
{
}

/// If the window is open when the loop starts and the `n`-th batch is the
/// first that asks to close, the loop makes exactly `n` passes. It is running
/// at the top of each of them and closed from then on, so it goes from running
/// to closed once, after pass `n`.
pub proof fn lemma_loop_ends_after_first_close_request(
    passes: Seq<Seq<WindowEvent>>,
    n: int,
    frames: int,
)
    requires
        1 <= n <= passes.len(),
        forall|i: int| 0 <= i < n - 1 ==> !requests_close(#[trigger] passes[i]),
        requests_close(passes[n - 1]),
        renders(false, passes, frames),
    ensures
        frames == n,
        forall|k: int|
            0 <= k < n ==> state_of(#[trigger] closing_after(false, passes, k))
                == LoopState::Running,
        forall|k: int|
            n <= k ==> state_of(#[trigger] closing_after(false, passes, k)) == LoopState::Closed,
{
}

/// The loop carries nothing from one pass to the next but the close flag:
/// run over one recording and then, with the flag that this left, over a
/// second, it makes the passes that one run over both in a row makes, and
/// leaves the same flag.
pub proof fn lemma_loop_resumes(
    closing: bool,
    first: Seq<Seq<WindowEvent>>,
    second: Seq<Seq<WindowEvent>>,
    first_frames: int,
    second_frames: int,
)
    requires
        renders(closing, first, first_frames),
        renders(closing_after(closing, first, first_frames), second, second_frames),
    ensures
        renders(closing, first + second, first_frames + second_frames),
        closing_after(closing, first + second, first_frames + second_frames) == closing_after(
            closing_after(closing, first, first_frames),
            second,
            second_frames,
        ),
{
    let both = first + second;
    if !closing {
        if closing_after(false, first, first_frames) {
            let i = choose|i: int|
                0 <= i < first_frames && i < first.len() && requests_close(#[trigger] first[i]);
            assert(requests_close(both[i]));
        } else {
            assert forall|i: int| 0 <= i < first_frames + second_frames - 1 implies !requests_close(
                #[trigger] both[i],
            ) by {
                if i >= first.len() {
                    assert(!requests_close(second[i - first.len()]));
                }
            }
            if closing_after(false, second, second_frames) {
                let i = choose|i: int|
                    0 <= i < second_frames && i < second.len() && requests_close(
                        #[trigger] second[i],
                    );
                assert(requests_close(both[first.len() + i]));
            }
        }
    }
}

impl RenderConfig {
    /// The configuration that only clears the window.
    pub fn window_only() -> (config: RenderConfig)
        ensures
            config == (RenderConfig { draw_enabled: false, use_shaders: false, program: 0, vao: 0 }),
    {
        RenderConfig { draw_enabled: false, use_shaders: false, program: 0, vao: 0 }
    }

    /// The configuration that draws the triangle held by `vao` with `program`.
    pub fn triangle(program: u32, vao: u32) -> (config: RenderConfig)
        ensures
            config == (RenderConfig { draw_enabled: true, use_shaders: true, program, vao }),
    {
        RenderConfig { draw_enabled: true, use_shaders: true, program, vao }
    }
}

/// The state of the loop, as the close flag of the window gives it at the top
/// of a pass.
pub fn loop_state(window: &Window) -> (state: LoopState)
    ensures
        state == state_of(window.closing()),
{
    if window.should_close() {
        LoopState::Closed
    } else {
        LoopState::Running
    }
}

/// One pass through the loop: handles the pending events, then clears, draws
/// as far as `config` asks, swaps the buffers and polls for new input.
pub fn render_frame(window: &mut Window, events: &Vec<WindowEvent>, config: &RenderConfig) -> (commands:
    Vec<Command>)
    ensures
        commands.deep_view() == frame_commands(events@, *config),
        final(window).closing() == (old(window).closing() || requests_close(events@)),
{
    let mut commands = process_events(window, events);
    commands.push(
        Command::ClearColor {
            red: CLEAR_RED,
            green: CLEAR_GREEN,
            blue: CLEAR_BLUE,
            alpha: CLEAR_ALPHA,
        },
    );
    commands.push(Command::ClearColorBuffer);
    if config.draw_enabled {
        if config.use_shaders {
            commands.push(Command::UseProgram { program: config.program });
        }
        commands.push(Command::BindVertexArray { array: config.vao });
        commands.push(Command::DrawTriangles { first: 0, count: DRAW_VERTEX_COUNT });
    }
    commands.push(Command::SwapBuffers);
    commands.push(Command::PollEvents);
    commands
}

/// Runs the loop over a recording: `passes` holds the events that are pending
/// at each pass, in order.
///
/// The loop looks at the close flag at the top of every pass and ends when it
/// is set, or when the recording is used up. The result holds the commands of
/// each pass that was made.
pub fn render(window: &mut Window, passes: &Vec<Vec<WindowEvent>>, config: &RenderConfig) -> (frames:
    Vec<Vec<Command>>)
    ensures
        renders(old(window).closing(), batches(passes@), frames.len() as int),
        forall|k: int|
            0 <= k < frames.len() ==> (#[trigger] frames[k]).deep_view() == frame_commands(
                passes[k]@,
                *config,
            ),
        final(window).closing() == closing_after(
            old(window).closing(),
            batches(passes@),
            frames.len() as int,
        ),
{
    let mut frames: Vec<Vec<Command>> = Vec::new();
    let ghost recorded = batches(passes@);
    let mut i: usize = 0;
    while i < passes.len() && !window.should_close()
        invariant
            i <= passes.len(),
            frames.len() == i,
            recorded == batches(passes@),
            old(window).closing() ==> i == 0 && window.closing(),
            forall|j: int| 0 <= j < i - 1 ==> !requests_close(#[trigger] recorded[j]),
            !old(window).closing() ==> window.closing() == (i > 0 && requests_close(
                recorded[i - 1],
            )),
            forall|k: int|
                0 <= k < i ==> (#[trigger] frames[k]).deep_view() == frame_commands(
                    passes[k]@,
                    *config,
                ),
        decreases passes.len() - i,
    {
        let commands = render_frame(window, &passes[i], config);
        frames.push(commands);
        i += 1;
    }
    frames
}

} // verus!
