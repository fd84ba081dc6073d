//! Viewport state and the coordinate editor.
//!
//! The viewport holds the complex center and the zoom level at arbitrary
//! precision.  Each of the three coordinate fields is an editable numeric
//! field modelled as an explicit two-state machine — Displaying, or Editing a
//! draft text.  A commit (losing focus on an enter press) parses the draft as
//! an arbitrary-precision decimal at the configured precision; on parse
//! failure the prior value is retained unchanged and the field stays in edit
//! mode.  Leaving the field without committing discards the draft.

use vstd::prelude::*;
use crate::model::{RealModel, wf_real, wf_complex};
use crate::bigfloat::{
    BigReal, BigComplex, real_parse, real_to_decimal, real_from_u32, parse_round, decimal_of,
};

verus! {

/// The viewport: the complex center of the view and the zoom level.  Only the
/// coordinate editor and the input handler write it.
pub struct Viewport {
    pub center: BigComplex,
    pub zoom: BigReal,
}

impl Viewport {
    /// A viewport looking at the origin at zoom one, at precision `prec`.
    pub fn new(prec: u32) -> (r: Self)
        requires
            1 <= prec,
        ensures
            wf_complex(r.center@),
            wf_real(r.zoom@),
            r.center@.re.prec == prec as nat,
            r.center@.im.prec == prec as nat,
            r.zoom@.prec == prec as nat,
    {
        Viewport {
            center: BigComplex { re: real_from_u32(0, prec), im: real_from_u32(0, prec) },
            zoom: real_from_u32(1, prec),
        }
    }
}

/// The widget events of one editable field in one frame.
#[derive(Clone, Copy)]
pub struct FieldEvents {
    pub lost_focus: bool,
    pub enter_pressed: bool,
    pub changed: bool,
}

/// An editable numeric field: a draft text and whether it is being edited.
pub struct LargeFloatEditor {
    pub value: String,
    pub editing: bool,
}

/// How one step of the field's state machine relates the old editor and
/// target value to the new ones.  Editing commits on an enter-press with
/// focus lost: a successful parse is applied at the given precision and the
/// field returns to Displaying; a failed parse keeps the prior value and
/// stays in edit mode.  Losing focus without enter discards the draft.  A
/// Displaying field shows the target's decimal text and enters edit mode
/// exactly when the text was changed.
pub open spec fn editor_step_rel(
    e0: LargeFloatEditor,
    t0: RealModel,
    e1: LargeFloatEditor,
    t1: RealModel,
    prec: nat,
    ev: FieldEvents,
) -> bool {
    if e0.editing {
        if ev.lost_focus && ev.enter_pressed {
            match parse_round(e0.value@, prec) {
                Some(v) => t1 == (RealModel { prec, val: v }) && !e1.editing && e1.value@
                    == e0.value@,
                None => t1 == t0 && e1.editing && e1.value@ == e0.value@,
            }
        } else if ev.lost_focus {
            t1 == t0 && !e1.editing && e1.value@ == e0.value@
        } else {
            t1 == t0 && e1.editing && e1.value@ == e0.value@
        }
    } else {
        t1 == t0 && e1.value@ == decimal_of(t0) && e1.editing == ev.changed
    }
}

impl LargeFloatEditor {
    /// A fresh field in Displaying state with an empty draft.
    pub fn new() -> (r: Self)
        ensures
            r.value@ == Seq::<char>::empty(),
            !r.editing,
    {
        LargeFloatEditor { value: String::new(), editing: false }
    }

    /// One frame of the field against its target scalar: the state machine
    /// step described by `editor_step_rel`.
    pub fn ui(&mut self, target: &mut BigReal, prec: u32, ev: FieldEvents)
        requires
            1 <= prec,
            wf_real(old(target)@),
        ensures
            editor_step_rel(*old(self), old(target)@, *final(self), final(target)@, prec as nat, ev),
            wf_real(final(target)@),
    {
        if self.editing {
            if ev.lost_focus && ev.enter_pressed {
                match real_parse(self.value.as_str(), prec) {
                    Some(parsed) => {
                        *target = parsed;
                        self.editing = false;
                    },
                    None => {},
                }
            } else if ev.lost_focus {
                self.editing = false;
            }
        } else {
            self.value = real_to_decimal(target);
            self.editing = ev.changed;
        }
    }
}

/// The information pane; what it shows (timing) is the application's.
pub struct InfoPane;

/// The toolbar holding the three coordinate fields.
pub struct PositionToolbar {
    pub re: LargeFloatEditor,
    pub im: LargeFloatEditor,
    pub zoom: LargeFloatEditor,
}

impl PositionToolbar {
    /// A toolbar of fresh fields.
    pub fn new() -> (r: Self)
        ensures
            !r.re.editing,
            !r.im.editing,
            !r.zoom.editing,
    {
        PositionToolbar {
            re: LargeFloatEditor::new(),
            im: LargeFloatEditor::new(),
            zoom: LargeFloatEditor::new(),
        }
    }

    /// One frame of the toolbar: each field steps its own state machine
    /// against its viewport scalar.
    pub fn ui(
        &mut self,
        viewport: &mut Viewport,
        prec: u32,
        re_ev: FieldEvents,
        im_ev: FieldEvents,
        zoom_ev: FieldEvents,
    )
        requires
            1 <= prec,
            wf_complex(old(viewport).center@),
            wf_real(old(viewport).zoom@),
        ensures
            editor_step_rel(
                old(self).re,
                old(viewport).center@.re,
                final(self).re,
                final(viewport).center@.re,
                prec as nat,
                re_ev,
            ),
            editor_step_rel(
                old(self).im,
                old(viewport).center@.im,
                final(self).im,
                final(viewport).center@.im,
                prec as nat,
                im_ev,
            ),
            editor_step_rel(
                old(self).zoom,
                old(viewport).zoom@,
                final(self).zoom,
                final(viewport).zoom@,
                prec as nat,
                zoom_ev,
            ),
            wf_complex(final(viewport).center@),
            wf_real(final(viewport).zoom@),
    {
        self.re.ui(&mut viewport.center.re, prec, re_ev);
        self.im.ui(&mut viewport.center.im, prec, im_ev);
        self.zoom.ui(&mut viewport.zoom, prec, zoom_ev);
    }
}

/// The interface: the information pane and the coordinate toolbar.
pub struct Interface {
    pub info_pane: InfoPane,
    pub position_toolbar: PositionToolbar,
}

impl Interface {
    /// A fresh interface.
    pub fn new() -> (r: Self)
        ensures
            !r.position_toolbar.re.editing,
            !r.position_toolbar.im.editing,
            !r.position_toolbar.zoom.editing,
    {
        Interface { info_pane: InfoPane, position_toolbar: PositionToolbar::new() }
    }

    /// One frame of the interface against the viewport; the widget events
    /// come from the windowing collaborator.
    pub fn ui(
        &mut self,
        viewport: &mut Viewport,
        prec: u32,
        re_ev: FieldEvents,
        im_ev: FieldEvents,
        zoom_ev: FieldEvents,
    )
        requires
            1 <= prec,
            wf_complex(old(viewport).center@),
            wf_real(old(viewport).zoom@),
        ensures
            editor_step_rel(
                old(self).position_toolbar.re,
                old(viewport).center@.re,
                final(self).position_toolbar.re,
                final(viewport).center@.re,
                prec as nat,
                re_ev,
            ),
            editor_step_rel(
                old(self).position_toolbar.im,
                old(viewport).center@.im,
                final(self).position_toolbar.im,
                final(viewport).center@.im,
                prec as nat,
                im_ev,
            ),
            editor_step_rel(
                old(self).position_toolbar.zoom,
                old(viewport).zoom@,
                final(self).position_toolbar.zoom,
                final(viewport).zoom@,
                prec as nat,
                zoom_ev,
            ),
            wf_complex(final(viewport).center@),
            wf_real(final(viewport).zoom@),
    {
        self.position_toolbar.ui(viewport, prec, re_ev, im_ev, zoom_ev);
    }
}

} // verus!
