//! One entry point per frame pass.
//!
//! The five per-frame operations — layout, render, hit test, cursor
//! input, keyboard input — share one protocol; a [`Pass`] value names
//! which one is being executed, and [`WidgetPassWidget`] dispatches it
//! to the corresponding operation of the wrapped widget.
//! [`PassWidgetWidget`] goes the other way: it presents the five
//! operations again on top of a pass-based dispatcher.

use vstd::prelude::*;
use crate::cursor::{cursor_dispatch_post, handle_cursor_input};
use crate::geom::{LayoutConstraint, Point, Rect};
use crate::hit::{test_input_pos_layer, test_pos_spec};
use crate::input::{CursorInput, InputReturn, InputState, KeyboardInput};
use crate::keyboard::{handle_keyboard_input, keyboard_path_spec};
use crate::layout::layout;
use crate::measure::{measure_spec, ready};
use crate::render::{render, render_cmds, RenderCtx};
use crate::widget::{Action, LayoutCtx, Widget, WidgetState};

verus! {

/// Which per-frame operation is being executed, with its parameters as
/// plain values.
#[derive(Clone, Copy, Debug, PartialEq, Eq, Structural)]
pub enum Pass {
    Layout { constraint: LayoutConstraint },
    Render { rect: Rect, layer: u8, focus: bool },
    TestInputPosLayer { rect: Rect, input_pos: Point },
    CursorInput { rect: Rect, cursor_pos: Point, cursor_layer: u8, input: CursorInput, focus: bool },
    KeyboardInput { rect: Rect, input: KeyboardInput, focus: bool },
}

/// What a pass hands back: nothing, a hit-test layer, an input
/// return, or the focus path a key event followed.
#[derive(Debug, PartialEq, Eq)]
pub enum PassResult {
    Unit,
    Layer(Option<u8>),
    Input(InputReturn),
    Path(Vec<u16>),
}

/// A widget exposed through the shared pass protocol.
#[derive(Debug)]
pub struct WidgetPassWidget(pub Widget);

/// A pass-based dispatcher exposed again as the five operations.
#[derive(Debug)]
pub struct PassWidgetWidget(pub WidgetPassWidget);

impl WidgetPassWidget {
    /// Execute one pass against the wrapped widget.
    pub fn pass(
        &self,
        s: &mut WidgetState,
        pass: Pass,
        input_state: &InputState,
        ctx: &mut RenderCtx,
        actions: &mut Vec<Action>,
    ) -> (r: PassResult)
        requires
            !(pass is Layout) ==> ready(self.0, *old(s)),
        ensures
            pass matches Pass::Layout { constraint } ==> ({
                &&& ready(self.0, *final(s))
                &&& final(s).min_size_spec() == measure_spec(self.0, constraint)
                &&& r == PassResult::Unit
            }),
            pass matches Pass::TestInputPosLayer { rect, input_pos } ==> ({
                &&& r == PassResult::Layer(test_pos_spec(self.0, *old(s), rect, input_pos))
                &&& *final(s) == *old(s)
            }),
            pass matches Pass::Render { rect, layer, focus } ==> ({
                &&& final(ctx).cmds@ == old(ctx).cmds@ + render_cmds(
                    self.0,
                    *old(s),
                    rect,
                    layer,
                    focus,
                    *input_state,
                )
                &&& *final(s) == *old(s)
                &&& r == PassResult::Unit
            }),
            pass matches Pass::CursorInput { rect, cursor_pos, cursor_layer, input, focus }
                ==> ({
                &&& r matches PassResult::Input(ret)
                &&& cursor_dispatch_post(
                    self.0,
                    *old(s),
                    *final(s),
                    rect,
                    cursor_pos,
                    cursor_layer,
                    input,
                    old(actions)@,
                    final(actions)@,
                    ret,
                )
            }),
            pass matches Pass::KeyboardInput { rect, input, focus } ==> ({
                &&& r matches PassResult::Path(path)
                &&& path@ == keyboard_path_spec(self.0, *old(s), focus)
                &&& *final(s) == *old(s)
            }),
    {
        match pass {
            Pass::Layout { constraint } => {
                let lctx = LayoutCtx { theme: ctx.theme };
                layout(&self.0, s, constraint, &lctx);
                PassResult::Unit
            },
            Pass::Render { rect, layer, focus } => {
                render(&self.0, s, rect, layer, focus, input_state, ctx);
                PassResult::Unit
            },
            Pass::TestInputPosLayer { rect, input_pos } => {
                PassResult::Layer(test_input_pos_layer(&self.0, s, rect, input_pos))
            },
            Pass::CursorInput { rect, cursor_pos, cursor_layer, input, focus } => {
                let ret = handle_cursor_input(
                    &self.0,
                    s,
                    rect,
                    cursor_pos,
                    cursor_layer,
                    input,
                    input_state,
                    &ctx.theme,
                    focus,
                    actions,
                );
                PassResult::Input(ret)
            },
            Pass::KeyboardInput { rect, input, focus } => {
                let path = handle_keyboard_input(
                    &self.0,
                    s,
                    rect,
                    &input,
                    input_state,
                    &ctx.theme,
                    focus,
                );
                PassResult::Path(path)
            },
        }
    }
}

impl PassWidgetWidget {
    /// Lay the wrapped widget out.
    pub fn layout(
        &self,
        s: &mut WidgetState,
        constraint: LayoutConstraint,
        input_state: &InputState,
        ctx: &mut RenderCtx,
        actions: &mut Vec<Action>,
    )
        ensures
            ready(self.0.0, *final(s)),
            final(s).min_size_spec() == measure_spec(self.0.0, constraint),
    {
        self.0.pass(s, Pass::Layout { constraint }, input_state, ctx, actions);
    }

    /// Render one layer of the wrapped widget.
    pub fn render(
        &self,
        s: &mut WidgetState,
        rect: Rect,
        layer: u8,
        focus: bool,
        input_state: &InputState,
        ctx: &mut RenderCtx,
        actions: &mut Vec<Action>,
    )
        requires
            ready(self.0.0, *old(s)),
        ensures
            final(ctx).cmds@ == old(ctx).cmds@ + render_cmds(
                self.0.0,
                *old(s),
                rect,
                layer,
                focus,
                *input_state,
            ),
            *final(s) == *old(s),
    {
        self.0.pass(s, Pass::Render { rect, layer, focus }, input_state, ctx, actions);
    }

    /// Hit-test the wrapped widget.
    pub fn test_input_pos_layer(
        &self,
        s: &mut WidgetState,
        rect: Rect,
        input_pos: Point,
        input_state: &InputState,
        ctx: &mut RenderCtx,
        actions: &mut Vec<Action>,
    ) -> (r: Option<u8>)
        requires
            ready(self.0.0, *old(s)),
        ensures
            r == test_pos_spec(self.0.0, *old(s), rect, input_pos),
    {
        let pr = self.0.pass(
            s,
            Pass::TestInputPosLayer { rect, input_pos },
            input_state,
            ctx,
            actions,
        );
        match pr {
            PassResult::Layer(l) => l,
            _ => None,
        }
    }

    /// Forward a cursor event into the wrapped widget.
    pub fn handle_cursor_input(
        &self,
        s: &mut WidgetState,
        rect: Rect,
        cursor_pos: Point,
        cursor_layer: u8,
        input: CursorInput,
        focus: bool,
        input_state: &InputState,
        ctx: &mut RenderCtx,
        actions: &mut Vec<Action>,
    ) -> (r: InputReturn)
        requires
            ready(self.0.0, *old(s)),
        ensures
            cursor_dispatch_post(
                self.0.0,
                *old(s),
                *final(s),
                rect,
                cursor_pos,
                cursor_layer,
                input,
                old(actions)@,
                final(actions)@,
                r,
            ),
    {
        let pr = self.0.pass(
            s,
            Pass::CursorInput { rect, cursor_pos, cursor_layer, input, focus },
            input_state,
            ctx,
            actions,
        );
        match pr {
            PassResult::Input(ret) => ret,
            _ => InputReturn::none(),
        }
    }

    /// Forward a key event into the wrapped widget and report the
    /// focus path it followed.
    pub fn handle_keyboard_input(
        &self,
        s: &mut WidgetState,
        rect: Rect,
        input: KeyboardInput,
        focus: bool,
        input_state: &InputState,
        ctx: &mut RenderCtx,
        actions: &mut Vec<Action>,
    ) -> (r: Vec<u16>)
        requires
            ready(self.0.0, *old(s)),
        ensures
            r@ == keyboard_path_spec(self.0.0, *old(s), focus),
            *final(s) == *old(s),
    {
        let pr = self.0.pass(s, Pass::KeyboardInput { rect, input, focus }, input_state, ctx, actions);
        match pr {
            PassResult::Path(path) => path,
            _ => Vec::new(),
        }
    }
}

} // verus!
