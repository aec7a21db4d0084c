use vstd::prelude::*;
use crate::flags::{ConstantFlags, DynamicFlags};
use crate::scalar::Scalar;

verus! {

/// A point or an extent on the canvas.
#[derive(Clone, Copy, Debug, PartialEq, Eq, Structural)]
pub struct Vector2 {
    pub x: Scalar,
    pub y: Scalar,
}

/// A part of the model with its opacity.
#[derive(Clone, Debug, PartialEq, Eq)]
pub struct Part {
    pub id: String,
    pub opacity: Scalar,
}

pub ghost struct PartView {
    pub id: Seq<char>,
    pub opacity: Scalar,
}

impl DeepView for Part {
    type V = PartView;

    open spec fn deep_view(&self) -> PartView {
        PartView { id: self.id@, opacity: self.opacity }
    }
}

/// A parameter of the model with its value and the bounds of it.
#[derive(Clone, Debug, PartialEq, Eq)]
pub struct Parameter {
    pub id: String,
    pub value: Scalar,
    pub min_value: Scalar,
    pub max_value: Scalar,
    pub default_value: Scalar,
}

pub ghost struct ParameterView {
    pub id: Seq<char>,
    pub value: Scalar,
    pub min_value: Scalar,
    pub max_value: Scalar,
    pub default_value: Scalar,
}

impl DeepView for Parameter {
    type V = ParameterView;

    open spec fn deep_view(&self) -> ParameterView {
        ParameterView {
            id: self.id@,
            value: self.value,
            min_value: self.min_value,
            max_value: self.max_value,
            default_value: self.default_value,
        }
    }
}

/// A mesh of the model as the solver left it after its last update.
#[derive(Clone, Debug, PartialEq, Eq)]
pub struct Drawable {
    pub id: String,
    pub index: u64,
    pub render_order: i32,
    pub draw_order: i32,
    pub texture_index: i32,
    pub indices: Vec<u16>,
    pub vertex_positions: Vec<Vector2>,
    pub vertex_uvs: Vec<Vector2>,
    pub opacity: Scalar,
    pub masks: Vec<i32>,
    pub constant_flags: ConstantFlags,
    pub dynamic_flags: DynamicFlags,
}

pub ghost struct DrawableView {
    pub id: Seq<char>,
    pub index: u64,
    pub render_order: i32,
    pub draw_order: i32,
    pub texture_index: i32,
    pub indices: Seq<u16>,
    pub vertex_positions: Seq<Vector2>,
    pub vertex_uvs: Seq<Vector2>,
    pub opacity: Scalar,
    pub masks: Seq<i32>,
    pub constant_flags: ConstantFlags,
    pub dynamic_flags: DynamicFlags,
}

impl DeepView for Drawable {
    type V = DrawableView;

    open spec fn deep_view(&self) -> DrawableView {
        DrawableView {
            id: self.id@,
            index: self.index,
            render_order: self.render_order,
            draw_order: self.draw_order,
            texture_index: self.texture_index,
            indices: self.indices@,
            vertex_positions: self.vertex_positions@,
            vertex_uvs: self.vertex_uvs@,
            opacity: self.opacity,
            masks: self.masks@,
            constant_flags: self.constant_flags,
            dynamic_flags: self.dynamic_flags,
        }
    }
}

/// The canvas that the model is drawn on.
#[derive(Clone, Copy, Debug, PartialEq, Eq, Structural)]
pub struct CanvasInfo {
    pub size: Vector2,
    pub origin: Vector2,
    pub pixels_per_unit: Scalar,
}

/// What the compiled model says of itself and never changes: the ids, the
/// bounds of the parameters and the topology of the drawables, each list in
/// the order of the solver's indices.
#[derive(Clone, Debug, PartialEq, Eq)]
pub struct Moc {
    pub parameter_ids: Vec<String>,
    pub parameter_max: Vec<Scalar>,
    pub parameter_min: Vec<Scalar>,
    pub parameter_default: Vec<Scalar>,
    pub part_ids: Vec<String>,
    pub drawable_ids: Vec<String>,
    pub drawable_indices: Vec<Vec<u16>>,
    pub drawable_masks: Vec<Vec<i32>>,
    pub is_masked: Vec<bool>,
    pub drawable_texture_indices: Vec<i32>,
    pub drawable_vertex_counts: Vec<i32>,
}

pub ghost struct MocView {
    pub parameter_ids: Seq<Seq<char>>,
    pub parameter_max: Seq<Scalar>,
    pub parameter_min: Seq<Scalar>,
    pub parameter_default: Seq<Scalar>,
    pub part_ids: Seq<Seq<char>>,
    pub drawable_ids: Seq<Seq<char>>,
    pub drawable_indices: Seq<Seq<u16>>,
    pub drawable_masks: Seq<Seq<i32>>,
    pub is_masked: Seq<bool>,
    pub drawable_texture_indices: Seq<i32>,
    pub drawable_vertex_counts: Seq<i32>,
}

impl DeepView for Moc {
    type V = MocView;

    open spec fn deep_view(&self) -> MocView {
        MocView {
            parameter_ids: self.parameter_ids.deep_view(),
            parameter_max: self.parameter_max@,
            parameter_min: self.parameter_min@,
            parameter_default: self.parameter_default@,
            part_ids: self.part_ids.deep_view(),
            drawable_ids: self.drawable_ids.deep_view(),
            drawable_indices: self.drawable_indices.deep_view(),
            drawable_masks: self.drawable_masks.deep_view(),
            is_masked: self.is_masked@,
            drawable_texture_indices: self.drawable_texture_indices@,
            drawable_vertex_counts: self.drawable_vertex_counts@,
        }
    }
}

/// The solver's side of a model, as plain values: the compiled model, the
/// canvas, and the parameters, parts and drawables as they stand.
#[derive(Clone, Debug, PartialEq, Eq)]
pub struct Solver {
    pub moc: Moc,
    pub canvas: CanvasInfo,
    pub parameters: Vec<Parameter>,
    pub parts: Vec<Part>,
    pub drawables: Vec<Drawable>,
}

pub ghost struct SolverView {
    pub moc: MocView,
    pub canvas: CanvasInfo,
    pub parameters: Seq<ParameterView>,
    pub parts: Seq<PartView>,
    pub drawables: Seq<DrawableView>,
}

impl DeepView for Solver {
    type V = SolverView;

    open spec fn deep_view(&self) -> SolverView {
        SolverView {
            moc: self.moc.deep_view(),
            canvas: self.canvas,
            parameters: self.parameters.deep_view(),
            parts: self.parts.deep_view(),
            drawables: self.drawables.deep_view(),
        }
    }
}

} // verus!
