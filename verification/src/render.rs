//! The render pass: walking the tree for one layer and producing draw
//! commands.
//!
//! Rendering is layered.  A widget is asked to draw layer `L` only if
//! its subtree reaches that layer; a flex container walks its children
//! in declaration order, advancing along the primary axis by each
//! child's actual extent.  Layer isolation: when a container renders a
//! layer below its own top layer, the children on that layer receive an
//! empty input state, so a widget sitting under an open overlay never
//! reacts to the cursor hovering the overlay.
//!
//! Executing the commands against a drawing surface is the platform
//! boundary's job.

use vstd::prelude::*;
use crate::button::{BORDER_COLOR, BORDER_WIDTH, COLOR, COLOR_DOWN, COLOR_HOVER, PADDING};
use crate::dropdown::dropdown_widget;
use crate::flex::{FlexContent, FlexContentState};
use crate::geom::{sat_add, sat_sub, Axis, Point, Rect, Size};
use crate::input::InputState;
use crate::layout::{lemma_dropdown_inner_wsize, lemma_dropdown_ready_inner, lemma_isizes_elem};
use crate::measure::{content_ready, items_ready, ready};
use crate::popup::popup_rect;
use crate::textbox::{TextBox, TEXTBOX_BG, TEXTBOX_BORDER, TEXTBOX_BORDER_FOCUSED, TEXTBOX_INSET_X, TEXTBOX_INSET_Y};
use crate::theme::{Color, Theme};
use crate::widget::{clamp_u32, csize, isizes, wsize, Widget, WidgetState};

verus! {

/// One drawing instruction for the platform's paint surface.
#[derive(Clone, Debug, PartialEq, Eq)]
pub enum DrawCmd {
    FillRect { rect: Rect, color: Color },
    StrokeRect { rect: Rect, color: Color, width: u32 },
    Glyphs { pos: Point, text: String, color: Color, font_size: u16 },
    Checkmark { rect: Rect, color: Color, width: u32 },
}

/// What the render pass reads and writes: the ambient theme and the
/// draw commands produced so far.
pub struct RenderCtx {
    pub theme: Theme,
    pub cmds: Vec<DrawCmd>,
}

/// The input state a container hands a child while rendering `layer`:
/// the real one only on the container's own top layer, an empty one on
/// every layer below it — the cursor there is hovering an overlay, not
/// the child.
pub fn layer_input_state(layer: u8, top_layer: u8, ambient: &InputState) -> (r: InputState)
    ensures
        r == layer_input_spec(layer, top_layer, *ambient),
        layer < top_layer ==> r == InputState::empty_spec(),
        layer == top_layer ==> r == *ambient,
{
    if layer == top_layer {
        *ambient
    } else {
        InputState::empty()
    }
}

/// The fill color of a clickable rectangle: pressed, hovered, or idle,
/// judged from the ambient input state.
pub open spec fn rect_fill_color(hover: bool, ist: InputState, rect: Rect) -> Color {
    let hov = hover && match ist.cursor_pos {
        Some(p) => rect.contains_spec(p),
        None => false,
    };
    if hov && ist.mouse_down {
        COLOR_DOWN
    } else if hov {
        COLOR_HOVER
    } else {
        COLOR
    }
}


/// The input state handed to a child rendered on `layer` inside a
/// container whose top layer is `top`: blanked below the top.
pub open spec fn layer_input_spec(layer: u8, top: u8, ist: InputState) -> InputState {
    if layer == top {
        ist
    } else {
        InputState::empty_spec()
    }
}

/// The command drawing `text` centered in `rect`.
pub open spec fn glyphs_centered(text: String, text_size: Size, rect: Rect) -> DrawCmd {
    let w = rect.size_spec().width;
    let h = rect.size_spec().height;
    DrawCmd::Glyphs {
        pos: Point {
            x: clamp_u32(
                rect.x0 as int + (if w >= text_size.width {
                    (w - text_size.width) as int
                } else {
                    0int
                }) / 2,
            ),
            y: clamp_u32(
                rect.y0 as int + (if h / 2 >= text_size.height / 2 {
                    h / 2 - text_size.height / 2
                } else {
                    0int
                }),
            ),
        },
        text,
        color: 0xFF_FF_FF_FF,
        font_size: 16,
    }
}

/// The command drawing a checkmark of size `sz` centered in `rect`.
pub open spec fn checkmark_render_cmd(sz: Size, rect: Rect) -> DrawCmd {
    let origin = Point {
        x: clamp_u32(
            rect.x0 as int + (if rect.size_spec().width >= sz.width {
                (rect.size_spec().width - sz.width) as int
            } else {
                0int
            }) / 2,
        ),
        y: clamp_u32(
            rect.y0 as int + (if rect.size_spec().height >= sz.height {
                (rect.size_spec().height - sz.height) as int
            } else {
                0int
            }) / 2,
        ),
    };
    DrawCmd::Checkmark {
        rect: Rect::from_origin_size_spec(origin, sz).inset_spec(4),
        color: 0xFF_FF_FF_FF,
        width: 4,
    }
}

/// The commands drawing a textbox: background, focus-dependent border,
/// and the text at its inset position.
pub open spec fn textbox_render_cmds(tb: TextBox, rect: Rect, focus: bool) -> Seq<DrawCmd> {
    seq![
        DrawCmd::FillRect { rect, color: TEXTBOX_BG },
        DrawCmd::StrokeRect {
            rect,
            color: if focus {
                TEXTBOX_BORDER_FOCUSED
            } else {
                TEXTBOX_BORDER
            },
            width: 1,
        },
        DrawCmd::Glyphs {
            pos: Point {
                x: clamp_u32(rect.x0 as int + TEXTBOX_INSET_X as int),
                y: clamp_u32(rect.y0 as int + TEXTBOX_INSET_Y as int),
            },
            text: tb.text,
            color: 0xFF_FF_FF_FF,
            font_size: 16,
        },
    ]
}

/// The rectangle a clickable rectangle's border is stroked in.
pub open spec fn border_rect_spec(rect: Rect) -> Rect {
    Rect {
        x0: clamp_u32(rect.x0 as int + (BORDER_WIDTH / 2) as int),
        y0: clamp_u32(rect.y0 as int + (BORDER_WIDTH / 2) as int),
        x1: if rect.x1 >= BORDER_WIDTH / 2 {
            (rect.x1 - BORDER_WIDTH / 2) as u32
        } else {
            0u32
        },
        y1: if rect.y1 >= BORDER_WIDTH / 2 {
            (rect.y1 - BORDER_WIDTH / 2) as u32
        } else {
            0u32
        },
    }
}

/// The commands a clickable rectangle draws around its content: the
/// hover-dependent fill and the optional border, on the base layer
/// only.
pub open spec fn rect_wrap_cmds(
    border: bool,
    hover: bool,
    rect: Rect,
    layer: u8,
    ist: InputState,
) -> Seq<DrawCmd> {
    if layer == 0 {
        let fill = DrawCmd::FillRect { rect, color: rect_fill_color(hover, ist, rect) };
        if border {
            seq![
                fill,
                DrawCmd::StrokeRect {
                    rect: border_rect_spec(rect),
                    color: BORDER_COLOR,
                    width: BORDER_WIDTH,
                },
            ]
        } else {
            seq![fill]
        }
    } else {
        Seq::empty()
    }
}

/// What the render walk over a child list accumulates: the commands,
/// the advancing position, and the child index.
pub ghost struct RenderFold {
    pub cmds: Seq<DrawCmd>,
    pub pos: Point,
    pub i: int,
}

/// The primary-axis extent a child occupies in the walks.
pub open spec fn child_extent(expand: bool, s: WidgetState, axis: Axis, expand_length: u32) -> u32 {
    if expand {
        expand_length
    } else {
        s.min_size_spec().primary_spec(axis)
    }
}

/// The even share the walks hand each expanding child, recomputed from
/// the stored layout bookkeeping.
pub open spec fn walk_expand_length(rect: Rect, axis: Axis, no_expand: u32, count: u32) -> u32 {
    if count > 0 {
        ((if rect.size_spec().primary_spec(axis) >= no_expand {
            (rect.size_spec().primary_spec(axis) - no_expand) as int
        } else {
            0int
        }) / count as int) as u32
    } else {
        0u32
    }
}

/// The position after a child of extent `len` along `axis`.
pub open spec fn advance_pos(pos: Point, axis: Axis, len: u32) -> Point {
    match axis {
        Axis::Horizontal => Point { x: clamp_u32(pos.x as int + len as int), y: pos.y },
        Axis::Vertical => Point { x: pos.x, y: clamp_u32(pos.y as int + len as int) },
    }
}

/// The child index after one more child; it saturates with the exec
/// counter.
pub open spec fn advance_index(i: int) -> int {
    if i < u64::MAX as int {
        i + 1
    } else {
        i
    }
}

/// One child under the render walk: drawn only if its subtree reaches
/// `layer`, into the rectangle at the walk position, focused iff its
/// ordinal is the container's focus index, under the layer-blanked
/// input state.
pub open spec fn render_child_fold(
    w: Widget,
    expand: bool,
    s: WidgetState,
    axis: Axis,
    sec_len: u32,
    expand_length: u32,
    layer: u8,
    top: u8,
    focus: Option<u16>,
    ist: InputState,
    pos: Point,
    i: int,
) -> RenderFold
    decreases wsize(w), 1int,
{
    let len = child_extent(expand, s, axis, expand_length);
    let cmds = if layer <= s.extra_layers_spec() {
        render_cmds(
            w,
            s,
            Rect::from_origin_size_spec(pos, Size::from_axes_spec(axis, len, sec_len)),
            layer,
            match focus {
                Some(fi) => i == fi as int,
                None => false,
            },
            layer_input_spec(layer, top, ist),
        )
    } else {
        Seq::empty()
    };
    RenderFold { cmds, pos: advance_pos(pos, axis, len), i: advance_index(i) }
}

/// The render walk over a child list, in declaration order.
pub open spec fn render_content_fold(
    content: FlexContent,
    cs: FlexContentState,
    axis: Axis,
    sec_len: u32,
    expand_length: u32,
    layer: u8,
    top: u8,
    focus: Option<u16>,
    ist: InputState,
    pos: Point,
    i: int,
) -> RenderFold
    decreases csize(content), 0int,
{
    match content {
        FlexContent::Empty(_) => RenderFold { cmds: Seq::empty(), pos, i },
        FlexContent::Item(it) => match cs {
            FlexContentState::Item(is) => match is.state {
                Some(s) => render_child_fold(
                    it.widget,
                    it.expand,
                    s,
                    axis,
                    sec_len,
                    expand_length,
                    layer,
                    top,
                    focus,
                    ist,
                    pos,
                    i,
                ),
                None => RenderFold { cmds: Seq::empty(), pos, i },
            },
            _ => RenderFold { cmds: Seq::empty(), pos, i },
        },
        FlexContent::Chain(t) => match cs {
            FlexContentState::Chain(ts) => {
                let fa = render_content_fold(
                    t.a,
                    ts.a,
                    axis,
                    sec_len,
                    expand_length,
                    layer,
                    top,
                    focus,
                    ist,
                    pos,
                    i,
                );
                let fb = render_content_fold(
                    t.b,
                    ts.b,
                    axis,
                    sec_len,
                    expand_length,
                    layer,
                    top,
                    focus,
                    ist,
                    fa.pos,
                    fa.i,
                );
                RenderFold { cmds: fa.cmds + fb.cmds, pos: fb.pos, i: fb.i }
            },
            _ => RenderFold { cmds: Seq::empty(), pos, i },
        },
        FlexContent::Iter(itr) => match cs {
            FlexContentState::Iter(iss) => render_items_fold(
                itr.items@,
                iss.state@,
                axis,
                sec_len,
                expand_length,
                layer,
                top,
                focus,
                ist,
                pos,
                i,
            ),
            _ => RenderFold { cmds: Seq::empty(), pos, i },
        },
    }
}

/// The render walk over an iterated child list.
pub open spec fn render_items_fold(
    items: Seq<crate::flex::FlexItem>,
    ss: Seq<crate::flex::FlexItemState>,
    axis: Axis,
    sec_len: u32,
    expand_length: u32,
    layer: u8,
    top: u8,
    focus: Option<u16>,
    ist: InputState,
    pos: Point,
    i: int,
) -> RenderFold
    decreases isizes(items), 0int,
    via render_items_fold_decreases
{
    if items.len() == 0 || items.len() != ss.len() {
        RenderFold { cmds: Seq::empty(), pos, i }
    } else {
        let fa = render_items_fold(
            items.drop_last(),
            ss.drop_last(),
            axis,
            sec_len,
            expand_length,
            layer,
            top,
            focus,
            ist,
            pos,
            i,
        );
        let fb = match ss.last().state {
            Some(s) => render_child_fold(
                items.last().widget,
                items.last().expand,
                s,
                axis,
                sec_len,
                expand_length,
                layer,
                top,
                focus,
                ist,
                fa.pos,
                fa.i,
            ),
            None => RenderFold { cmds: Seq::empty(), pos: fa.pos, i: fa.i },
        };
        RenderFold { cmds: fa.cmds + fb.cmds, pos: fb.pos, i: fb.i }
    }
}

/// The draw commands rendering one layer of a widget appends: the full
/// functional model of the render pass.
pub open spec fn render_cmds(
    w: Widget,
    s: WidgetState,
    rect: Rect,
    layer: u8,
    focus: bool,
    ist: InputState,
) -> Seq<DrawCmd>
    decreases wsize(w), 0int,
    via render_cmds_decreases
{
    match w {
        Widget::Nothing(_) => Seq::empty(),
        Widget::Text(t) => seq![glyphs_centered(t.text, t.text_size, rect)],
        Widget::Checkmark(cm) => seq![checkmark_render_cmd(cm.0, rect)],
        Widget::FixedRect(_) => Seq::empty(),
        Widget::TextBox(tb) => textbox_render_cmds(tb, rect, focus),
        Widget::Button(b) => match s {
            WidgetState::Button(bs) => rect_wrap_cmds(false, true, rect, layer, ist)
                + render_cmds(b.widget, bs.state, rect.inset_spec(PADDING), layer, focus, ist),
            _ => Seq::empty(),
        },
        Widget::Flex(f) => match s {
            WidgetState::Flex(fs) => render_content_fold(
                f.content,
                fs.content_state,
                f.axis,
                rect.size_spec().secondary_spec(f.axis),
                walk_expand_length(rect, f.axis, fs.no_expand_size, fs.expand_count),
                layer,
                fs.extra_layers,
                if focus {
                    fs.focus
                } else {
                    None
                },
                ist,
                rect.origin_spec(),
                0,
            ).cmds,
            _ => Seq::empty(),
        },
        Widget::Popup(p) => match s {
            WidgetState::Popup(ps) => if layer == 0 {
                render_cmds(p.base, ps.base, rect, 0, focus, ist)
            } else {
                match (p.popup, ps.popup) {
                    (Some(ov), Some(os)) => render_cmds(
                        ov,
                        os,
                        crate::popup::popup_rect_spec(rect),
                        (layer - 1) as u8,
                        focus,
                        ist,
                    ),
                    _ => Seq::empty(),
                }
            },
            _ => Seq::empty(),
        },
        Widget::Dropdown(d) => match s {
            WidgetState::Dropdown(ds) => match ds.widget_state {
                WidgetState::Popup(ps) => if layer == 0 {
                    match ps.base {
                        WidgetState::Button(bs) => rect_wrap_cmds(false, true, rect, 0, ist)
                            + seq![
                            glyphs_centered(
                                d.selected,
                                d.selected_size,
                                rect.inset_spec(PADDING),
                            ),
                        ],
                        _ => Seq::empty(),
                    }
                } else {
                    match ps.popup {
                        Some(os) => if ds.open {
                            match os {
                                WidgetState::Flex(fs) => match fs.content_state {
                                    FlexContentState::Iter(iss) => render_items_fold(
                                        crate::dropdown::spec_dropdown_items(d.items@),
                                        iss.state@,
                                        Axis::Vertical,
                                        crate::popup::popup_rect_spec(rect).size_spec().width,
                                        walk_expand_length(
                                            crate::popup::popup_rect_spec(rect),
                                            Axis::Vertical,
                                            fs.no_expand_size,
                                            fs.expand_count,
                                        ),
                                        (layer - 1) as u8,
                                        fs.extra_layers,
                                        if focus {
                                            fs.focus
                                        } else {
                                            None
                                        },
                                        ist,
                                        crate::popup::popup_rect_spec(rect).origin_spec(),
                                        0,
                                    ).cmds,
                                    _ => Seq::empty(),
                                },
                                _ => Seq::empty(),
                            }
                        } else {
                            Seq::empty()
                        },
                        None => Seq::empty(),
                    }
                },
                _ => Seq::empty(),
            },
            _ => Seq::empty(),
        },
    }
}


#[via_fn]
proof fn render_items_fold_decreases(
    items: Seq<crate::flex::FlexItem>,
    ss: Seq<crate::flex::FlexItemState>,
    axis: Axis,
    sec_len: u32,
    expand_length: u32,
    layer: u8,
    top: u8,
    focus: Option<u16>,
    ist: InputState,
    pos: Point,
    i: int,
) {
    if items.len() > 0 {
        assert(isizes(items) == isizes(items.drop_last()) + 1 + wsize(items.last().widget));
    }
}

#[via_fn]
proof fn render_cmds_decreases(
    w: Widget,
    s: WidgetState,
    rect: Rect,
    layer: u8,
    focus: bool,
    ist: InputState,
) {
    match w {
        Widget::Dropdown(d) => {
            crate::layout::lemma_dropdown_items_isizes(d.items@);
        },
        _ => {},
    }
}

/// Render a widget subtree for one layer, appending draw commands.
pub fn render(
    w: &Widget,
    s: &WidgetState,
    rect: Rect,
    layer: u8,
    focus: bool,
    input_state: &InputState,
    ctx: &mut RenderCtx,
)
    requires
        ready(*w, *s),
    ensures
        final(ctx).cmds@ == old(ctx).cmds@ + render_cmds(*w, *s, rect, layer, focus, *input_state),
        final(ctx).theme == old(ctx).theme,
    decreases wsize(*w), 2int,
{
    proof {
        assert(ctx.cmds@ =~= old(ctx).cmds@ + Seq::<DrawCmd>::empty());
    }
    match w {
        Widget::Nothing(_) => {},
        Widget::Text(t) => {
            draw_centered_text(&t.text, t.text_size, rect, ctx);
        },
        Widget::Checkmark(cm) => {
            let inner = Rect::from_origin_size(
                Point {
                    x: sat_add(rect.x0, sat_sub(sat_sub(rect.x1, rect.x0), cm.0.width) / 2),
                    y: sat_add(rect.y0, sat_sub(sat_sub(rect.y1, rect.y0), cm.0.height) / 2),
                },
                cm.0,
            ).inset(4);
            ctx.cmds.push(DrawCmd::Checkmark { rect: inner, color: 0xFF_FF_FF_FF, width: 4 });
            proof {
                assert(ctx.cmds@ =~= old(ctx).cmds@ + seq![checkmark_render_cmd(cm.0, rect)]);
            }
        },
        Widget::FixedRect(_) => {},
        Widget::TextBox(tb) => {
            ctx.cmds.push(DrawCmd::FillRect { rect, color: TEXTBOX_BG });
            let border = if focus {
                TEXTBOX_BORDER_FOCUSED
            } else {
                TEXTBOX_BORDER
            };
            ctx.cmds.push(DrawCmd::StrokeRect { rect, color: border, width: 1 });
            ctx.cmds.push(DrawCmd::Glyphs {
                pos: Point {
                    x: sat_add(rect.x0, TEXTBOX_INSET_X),
                    y: sat_add(rect.y0, TEXTBOX_INSET_Y),
                },
                text: tb.text.clone(),
                color: 0xFF_FF_FF_FF,
                font_size: 16,
            });
            proof {
                assert(ctx.cmds@ =~= old(ctx).cmds@ + textbox_render_cmds(*tb, rect, focus));
            }
        },
        Widget::Button(b) => {
            if let WidgetState::Button(bs) = s {
                render_rect(false, true, &b.widget, &bs.state, rect, layer, focus, input_state, ctx);
                proof {
                    assert(ctx.cmds@ =~= old(ctx).cmds@ + render_cmds(
                        *w,
                        *s,
                        rect,
                        layer,
                        focus,
                        *input_state,
                    ));
                }
            }
        },
        Widget::Flex(f) => {
            if let WidgetState::Flex(fs) = s {
                let axis = f.axis;
                let rect_size = rect.size();
                let extra = sat_sub(rect_size.primary(axis), fs.no_expand_size);
                let expand_length: u32 = if fs.expand_count > 0 {
                    extra / fs.expand_count
                } else {
                    0
                };
                let mut pos = rect.origin();
                let mut i: u64 = 0;
                proof {
                    assert(expand_length == walk_expand_length(
                        rect,
                        axis,
                        fs.no_expand_size,
                        fs.expand_count,
                    ));
                }
                render_walk_content(
                    &f.content,
                    &fs.content_state,
                    axis,
                    rect_size.secondary(axis),
                    expand_length,
                    layer,
                    fs.extra_layers,
                    if focus {
                        fs.focus
                    } else {
                        None
                    },
                    input_state,
                    &mut pos,
                    &mut i,
                    ctx,
                );
            }
        },
        Widget::Popup(p) => {
            if let WidgetState::Popup(ps) = s {
                if layer == 0 {
                    render(&p.base, &ps.base, rect, 0, focus, input_state, ctx);
                } else {
                    if let (Some(ow), Some(os)) = (&p.popup, &ps.popup) {
                        proof {
                            assert(wsize(*ow) < wsize(*w));
                        }
                        let pr = popup_rect(rect, os.min_size());
                        render(ow, os, pr, layer - 1, focus, input_state, ctx);
                    }
                }
            }
        },
        Widget::Dropdown(d) => {
            if let WidgetState::Dropdown(ds) = s {
                let inner = dropdown_widget(d, ds.open);
                proof {
                    lemma_dropdown_inner_wsize(**d, ds.open, inner);
                    lemma_dropdown_ready_inner(**d, ds.open, inner, **ds);
                }
                render(&inner, &ds.widget_state, rect, layer, focus, input_state, ctx);
                proof {
                    lemma_dropdown_render_cmds(
                        **d,
                        ds.open,
                        inner,
                        **ds,
                        rect,
                        layer,
                        focus,
                        *input_state,
                    );
                }
            }
        },
    }
}


/// The subtree a dropdown builds renders exactly what the dropdown's
/// closed-form model says: its button on the base layer, the option
/// column (anchored to the base rectangle) on the layers above while
/// open.
pub proof fn lemma_dropdown_render_cmds(
    d: crate::dropdown::Dropdown,
    open: bool,
    wi: Widget,
    ds: crate::dropdown::StatefulWidgetState,
    rect: Rect,
    layer: u8,
    focus: bool,
    ist: InputState,
)
    requires
        crate::dropdown::is_dropdown_widget(d, open, wi),
        ds.open == open,
    ensures
        render_cmds(wi, ds.widget_state, rect, layer, focus, ist) == render_cmds(
            Widget::Dropdown(Box::new(d)),
            WidgetState::Dropdown(Box::new(ds)),
            rect,
            layer,
            focus,
            ist,
        ),
{
    let p = wi->Popup_0;
    let lhs = render_cmds(wi, ds.widget_state, rect, layer, focus, ist);
    let rhs = render_cmds(
        Widget::Dropdown(Box::new(d)),
        WidgetState::Dropdown(Box::new(ds)),
        rect,
        layer,
        focus,
        ist,
    );
    match ds.widget_state {
        WidgetState::Popup(ps) => {
            if layer == 0 {
                assert(lhs == render_cmds(p.base, ps.base, rect, 0, focus, ist));
                match ps.base {
                    WidgetState::Button(bs) => {
                        let bw = p.base->Button_0;
                        assert(bw.widget == Widget::Text(crate::drawables::TextWidget {
                            text: d.selected,
                            text_size: d.selected_size,
                        }));
                        assert(render_cmds(bw.widget, bs.state, rect.inset_spec(PADDING), 0, focus, ist)
                            == seq![
                            glyphs_centered(d.selected, d.selected_size, rect.inset_spec(PADDING)),
                        ]);
                        assert(render_cmds(p.base, ps.base, rect, 0, focus, ist) == rect_wrap_cmds(
                            false,
                            true,
                            rect,
                            0,
                            ist,
                        ) + seq![
                            glyphs_centered(d.selected, d.selected_size, rect.inset_spec(PADDING)),
                        ]);
                        assert(rhs == rect_wrap_cmds(false, true, rect, 0, ist) + seq![
                            glyphs_centered(d.selected, d.selected_size, rect.inset_spec(PADDING)),
                        ]);
                    },
                    _ => {
                        assert(render_cmds(p.base, ps.base, rect, 0, focus, ist)
                            == Seq::<DrawCmd>::empty());
                        assert(rhs == Seq::<DrawCmd>::empty());
                    },
                }
            } else {
                match (p.popup, ps.popup) {
                    (Some(ov), Some(os)) => {
                        let f = ov->Flex_0;
                        let pr = crate::popup::popup_rect_spec(rect);
                        assert(lhs == render_cmds(ov, os, pr, (layer - 1) as u8, focus, ist));
                        match os {
                            WidgetState::Flex(fs) => {
                                let itr = f.content->Iter_0;
                                assert(itr.items@ == crate::dropdown::spec_dropdown_items(
                                    d.items@,
                                ));
                                match fs.content_state {
                                    FlexContentState::Iter(iss) => {
                                        assert(render_cmds(ov, os, pr, (layer - 1) as u8, focus, ist)
                                            == render_content_fold(
                                            f.content,
                                            fs.content_state,
                                            f.axis,
                                            pr.size_spec().secondary_spec(f.axis),
                                            walk_expand_length(
                                                pr,
                                                f.axis,
                                                fs.no_expand_size,
                                                fs.expand_count,
                                            ),
                                            (layer - 1) as u8,
                                            fs.extra_layers,
                                            if focus {
                                                fs.focus
                                            } else {
                                                None
                                            },
                                            ist,
                                            pr.origin_spec(),
                                            0,
                                        ).cmds);
                                        assert(lhs == rhs);
                                    },
                                    _ => {
                                        assert(lhs == render_content_fold(
                                            f.content,
                                            fs.content_state,
                                            f.axis,
                                            pr.size_spec().secondary_spec(f.axis),
                                            walk_expand_length(
                                                pr,
                                                f.axis,
                                                fs.no_expand_size,
                                                fs.expand_count,
                                            ),
                                            (layer - 1) as u8,
                                            fs.extra_layers,
                                            if focus {
                                                fs.focus
                                            } else {
                                                None
                                            },
                                            ist,
                                            pr.origin_spec(),
                                            0,
                                        ).cmds);
                                        assert(lhs == Seq::<DrawCmd>::empty());
                                        assert(rhs == Seq::<DrawCmd>::empty());
                                    },
                                }
                            },
                            _ => {
                                assert(lhs == Seq::<DrawCmd>::empty());
                                assert(rhs == Seq::<DrawCmd>::empty());
                            },
                        }
                    },
                    (None, Some(os)) => {
                        assert(lhs == Seq::<DrawCmd>::empty());
                        assert(!open);
                        assert(rhs == Seq::<DrawCmd>::empty());
                    },
                    (Some(ov), None) => {
                        assert(lhs == Seq::<DrawCmd>::empty());
                        assert(rhs == Seq::<DrawCmd>::empty());
                    },
                    (None, None) => {
                        assert(lhs == Seq::<DrawCmd>::empty());
                        assert(rhs == Seq::<DrawCmd>::empty());
                    },
                }
            }
        },
        _ => {
            assert(lhs == Seq::<DrawCmd>::empty());
            assert(rhs == Seq::<DrawCmd>::empty());
        },
    }
}

/// Draw a clickable rectangle — filled with the hover-dependent color
/// on the base layer, with an optional border — then the widget inside
/// it, inset by the button padding.
pub fn render_rect(
    border: bool,
    hover: bool,
    w: &Widget,
    s: &WidgetState,
    rect: Rect,
    layer: u8,
    focus: bool,
    input_state: &InputState,
    ctx: &mut RenderCtx,
)
    requires
        ready(*w, *s),
    ensures
        final(ctx).cmds@ == old(ctx).cmds@ + rect_wrap_cmds(border, hover, rect, layer, *input_state)
            + render_cmds(*w, *s, rect.inset_spec(PADDING), layer, focus, *input_state),
        final(ctx).theme == old(ctx).theme,
    decreases wsize(*w), 3int,
{
    if layer == 0 {
        let hov = hover && match input_state.cursor_pos {
            Some(p) => rect.contains(p),
            None => false,
        };
        let color: Color = if hov && input_state.mouse_down {
            COLOR_DOWN
        } else if hov {
            COLOR_HOVER
        } else {
            COLOR
        };
        ctx.cmds.push(DrawCmd::FillRect { rect, color });
        if border {
            let border_rect = Rect {
                x0: sat_add(rect.x0, BORDER_WIDTH / 2),
                y0: sat_add(rect.y0, BORDER_WIDTH / 2),
                x1: sat_sub(rect.x1, BORDER_WIDTH / 2),
                y1: sat_sub(rect.y1, BORDER_WIDTH / 2),
            };
            ctx.cmds.push(DrawCmd::StrokeRect {
                rect: border_rect,
                color: BORDER_COLOR,
                width: BORDER_WIDTH,
            });
        }
    }
    proof {
        assert(ctx.cmds@ =~= old(ctx).cmds@ + rect_wrap_cmds(
            border,
            hover,
            rect,
            layer,
            *input_state,
        ));
    }
    render(w, s, rect.inset(PADDING), layer, focus, input_state, ctx);
    proof {
        assert(ctx.cmds@ =~= old(ctx).cmds@ + rect_wrap_cmds(
            border,
            hover,
            rect,
            layer,
            *input_state,
        ) + render_cmds(*w, *s, rect.inset_spec(PADDING), layer, focus, *input_state));
    }
}

/// Append the command drawing `text` centered in `rect`.
fn draw_centered_text(text: &String, text_size: Size, rect: Rect, ctx: &mut RenderCtx)
    ensures
        final(ctx).cmds@ == old(ctx).cmds@ + seq![glyphs_centered(*text, text_size, rect)],
        final(ctx).theme == old(ctx).theme,
{
    let w = sat_sub(rect.x1, rect.x0);
    let h = sat_sub(rect.y1, rect.y0);
    let pos = Point {
        x: sat_add(rect.x0, sat_sub(w, text_size.width) / 2),
        y: sat_add(rect.y0, sat_sub(h / 2, text_size.height / 2)),
    };
    ctx.cmds.push(DrawCmd::Glyphs {
        pos,
        text: text.clone(),
        color: 0xFF_FF_FF_FF,
        font_size: 16,
    });
    proof {
        assert(ctx.cmds@ =~= old(ctx).cmds@ + seq![glyphs_centered(*text, text_size, rect)]);
    }
}

/// The render walk over a child list: draw, for the requested layer,
/// every child whose subtree reaches it, handing the real input state
/// only to the container's own top layer.
#[verifier::loop_isolation(false)]
fn render_walk_content(
    content: &FlexContent,
    cs: &FlexContentState,
    axis: Axis,
    sec_len: u32,
    expand_length: u32,
    layer: u8,
    top_layer: u8,
    focus: Option<u16>,
    input_state: &InputState,
    pos: &mut Point,
    i: &mut u64,
    ctx: &mut RenderCtx,
)
    requires
        content_ready(*content, *cs),
    ensures
        ({
            let fold = render_content_fold(
                *content,
                *cs,
                axis,
                sec_len,
                expand_length,
                layer,
                top_layer,
                focus,
                *input_state,
                *old(pos),
                *old(i) as int,
            );
            &&& final(ctx).cmds@ == old(ctx).cmds@ + fold.cmds
            &&& *final(pos) == fold.pos
            &&& *final(i) as int == fold.i
        }),
        final(ctx).theme == old(ctx).theme,
    decreases csize(*content), 1int,
{
    proof {
        assert(ctx.cmds@ =~= old(ctx).cmds@ + Seq::<DrawCmd>::empty());
    }
    match content {
        FlexContent::Empty(_) => {},
        FlexContent::Item(it) => {
            if let FlexContentState::Item(is) = cs {
                if let Some(child_state) = &is.state {
                    render_walk_child(
                        &it.widget,
                        it.expand,
                        child_state,
                        axis,
                        sec_len,
                        expand_length,
                        layer,
                        top_layer,
                        focus,
                        input_state,
                        pos,
                        i,
                        ctx,
                    );
                }
            }
        },
        FlexContent::Chain(t) => {
            if let FlexContentState::Chain(ts) = cs {
                let ghost fa = render_content_fold(
                    t.a,
                    ts.a,
                    axis,
                    sec_len,
                    expand_length,
                    layer,
                    top_layer,
                    focus,
                    *input_state,
                    *pos,
                    *i as int,
                );
                render_walk_content(
                    &t.a,
                    &ts.a,
                    axis,
                    sec_len,
                    expand_length,
                    layer,
                    top_layer,
                    focus,
                    input_state,
                    pos,
                    i,
                    ctx,
                );
                let ghost fb = render_content_fold(
                    t.b,
                    ts.b,
                    axis,
                    sec_len,
                    expand_length,
                    layer,
                    top_layer,
                    focus,
                    *input_state,
                    *pos,
                    *i as int,
                );
                render_walk_content(
                    &t.b,
                    &ts.b,
                    axis,
                    sec_len,
                    expand_length,
                    layer,
                    top_layer,
                    focus,
                    input_state,
                    pos,
                    i,
                    ctx,
                );
                proof {
                    assert(ctx.cmds@ =~= old(ctx).cmds@ + (fa.cmds + fb.cmds));
                }
            }
        },
        FlexContent::Iter(itr) => {
            if let FlexContentState::Iter(iss) = cs {
                let n = itr.items.len();
                let mut idx: usize = 0;
                while idx < n
                    invariant
                        idx <= n,
                        ctx.theme == old(ctx).theme,
                        ({
                            let fold = render_items_fold(
                                itr.items@.subrange(0, idx as int),
                                iss.state@.subrange(0, idx as int),
                                axis,
                                sec_len,
                                expand_length,
                                layer,
                                top_layer,
                                focus,
                                *input_state,
                                *old(pos),
                                *old(i) as int,
                            );
                            &&& ctx.cmds@ == old(ctx).cmds@ + fold.cmds
                            &&& *pos == fold.pos
                            &&& *i as int == fold.i
                        }),
                    decreases n - idx,
                {
                    let ghost fa = render_items_fold(
                        itr.items@.subrange(0, idx as int),
                        iss.state@.subrange(0, idx as int),
                        axis,
                        sec_len,
                        expand_length,
                        layer,
                        top_layer,
                        focus,
                        *input_state,
                        *old(pos),
                        *old(i) as int,
                    );
                    proof {
                        lemma_isizes_elem(itr.items@, idx as int);
                        assert(csize(*content) == 1 + isizes(itr.items@));
                        assert(items_ready(itr.items@, iss.state@));
                    }
                    let it = &itr.items[idx];
                    let slot = &iss.state[idx];
                    let ghost fb = match &slot.state {
                        Some(cst) => render_child_fold(
                            it.widget,
                            it.expand,
                            *cst,
                            axis,
                            sec_len,
                            expand_length,
                            layer,
                            top_layer,
                            focus,
                            *input_state,
                            *pos,
                            *i as int,
                        ),
                        None => RenderFold { cmds: Seq::empty(), pos: *pos, i: *i as int },
                    };
                    if let Some(child_state) = &slot.state {
                        render_walk_child(
                            &it.widget,
                            it.expand,
                            child_state,
                            axis,
                            sec_len,
                            expand_length,
                            layer,
                            top_layer,
                            focus,
                            input_state,
                            pos,
                            i,
                            ctx,
                        );
                    }
                    proof {
                        let pi = itr.items@.subrange(0, idx as int + 1);
                        let ps = iss.state@.subrange(0, idx as int + 1);
                        assert(pi.drop_last() =~= itr.items@.subrange(0, idx as int));
                        assert(ps.drop_last() =~= iss.state@.subrange(0, idx as int));
                        assert(pi.last() == itr.items@[idx as int]);
                        assert(ps.last() == iss.state@[idx as int]);
                        assert(render_items_fold(
                            pi,
                            ps,
                            axis,
                            sec_len,
                            expand_length,
                            layer,
                            top_layer,
                            focus,
                            *input_state,
                            *old(pos),
                            *old(i) as int,
                        ) == (RenderFold { cmds: fa.cmds + fb.cmds, pos: fb.pos, i: fb.i }));
                        assert(ctx.cmds@ =~= old(ctx).cmds@ + (fa.cmds + fb.cmds));
                    }
                    idx = idx + 1;
                }
                proof {
                    assert(itr.items@.subrange(0, n as int) =~= itr.items@);
                    assert(iss.state@.subrange(0, n as int) =~= iss.state@);
                }
            }
        },
    }
}

/// One child under the render walk.
fn render_walk_child(
    w: &Widget,
    expand: bool,
    child_state: &WidgetState,
    axis: Axis,
    sec_len: u32,
    expand_length: u32,
    layer: u8,
    top_layer: u8,
    focus: Option<u16>,
    input_state: &InputState,
    pos: &mut Point,
    i: &mut u64,
    ctx: &mut RenderCtx,
)
    requires
        ready(*w, *child_state),
    ensures
        ({
            let fold = render_child_fold(
                *w,
                expand,
                *child_state,
                axis,
                sec_len,
                expand_length,
                layer,
                top_layer,
                focus,
                *input_state,
                *old(pos),
                *old(i) as int,
            );
            &&& final(ctx).cmds@ == old(ctx).cmds@ + fold.cmds
            &&& *final(pos) == fold.pos
            &&& *final(i) as int == fold.i
        }),
        final(ctx).theme == old(ctx).theme,
    decreases wsize(*w), 3int,
{
    let widget_length: u32 = if expand {
        expand_length
    } else {
        child_state.min_size().primary(axis)
    };
    let child_extra = child_state.extra_layers();
    if layer <= child_extra {
        let child_input = layer_input_state(layer, top_layer, input_state);
        let child_rect = Rect::from_origin_size(
            *pos,
            Size::from_axes(axis, widget_length, sec_len),
        );
        let child_focus = match focus {
            Some(fi) => *i == (fi as u64),
            None => false,
        };
        render(w, child_state, child_rect, layer, child_focus, &child_input, ctx);
    } else {
        proof {
            assert(ctx.cmds@ =~= old(ctx).cmds@ + Seq::<DrawCmd>::empty());
        }
    }
    let next = match axis {
        Axis::Horizontal => Point { x: sat_add(pos.x, widget_length), y: pos.y },
        Axis::Vertical => Point { x: pos.x, y: sat_add(pos.y, widget_length) },
    };
    *pos = next;
    if *i < u64::MAX {
        *i = *i + 1;
    }
}

} // verus!
