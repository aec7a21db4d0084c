use vstd::prelude::*;
use crate::decode::{
    lemma_deep_view_push, lemma_try_map_fails, lemma_try_map_step, outcome_view, try_map,
};
use crate::error::LoadError;
use crate::json::{json_text, require, required, text_is, Json, JsonView};
use crate::scalar::Scalar;

verus! {

/// How an expression changes a parameter.
#[derive(Clone, Copy, Debug, PartialEq, Eq, Structural)]
pub enum Blend {
    /// The weighted value is added to the parameter.
    Add,
    /// The parameter is scaled by one plus the weighted value.
    Multiply,
    /// The parameter moves toward the value by the weight.
    Overwrite,
}

/// What an expression does to one parameter.
#[derive(Clone, Debug, PartialEq, Eq)]
pub struct ExpressionParameter {
    pub id: String,
    pub value: Scalar,
    pub blend: Blend,
}

pub ghost struct ExpressionParameterView {
    pub id: Seq<char>,
    pub value: Scalar,
    pub blend: Blend,
}

impl DeepView for ExpressionParameter {
    type V = ExpressionParameterView;

    open spec fn deep_view(&self) -> ExpressionParameterView {
        ExpressionParameterView { id: self.id@, value: self.value, blend: self.blend }
    }
}

/// A facial expression: changes to parameters, applied on demand.
#[derive(Clone, Debug, PartialEq, Eq)]
pub struct Expression {
    pub fade_in_time: Option<Scalar>,
    pub fade_out_time: Option<Scalar>,
    pub parameters: Vec<ExpressionParameter>,
}

pub ghost struct ExpressionView {
    pub fade_in_time: Option<Scalar>,
    pub fade_out_time: Option<Scalar>,
    pub parameters: Seq<ExpressionParameterView>,
}

impl DeepView for Expression {
    type V = ExpressionView;

    open spec fn deep_view(&self) -> ExpressionView {
        ExpressionView {
            fade_in_time: self.fade_in_time,
            fade_out_time: self.fade_out_time,
            parameters: self.parameters.deep_view(),
        }
    }
}

/// The blend that a text names; left out, it is `Add`.
pub open spec fn blend_of(text: Option<Seq<char>>) -> Result<Blend, LoadError> {
    match text {
        None => Ok(Blend::Add),
        Some(t) => if t == "Add"@ {
            Ok(Blend::Add)
        } else if t == "Multiply"@ {
            Ok(Blend::Multiply)
        } else if t == "Overwrite"@ {
            Ok(Blend::Overwrite)
        } else {
            Err(LoadError::Parse)
        },
    }
}

/// A change to a parameter is an object with an `Id`, a `Value` and, where
/// it says so, a `Blend`.
pub open spec fn expression_parameter_of(j: JsonView) -> Result<
    ExpressionParameterView,
    LoadError,
> {
    match required(j.text_field("Id"@)) {
        Err(e) => Err(e),
        Ok(id) => match required(j.scalar_field("Value"@)) {
            Err(e) => Err(e),
            Ok(value) => match j.text_field("Blend"@) {
                Err(e) => Err(e),
                Ok(text) => match blend_of(text) {
                    Err(e) => Err(e),
                    Ok(blend) => Ok(ExpressionParameterView { id, value, blend }),
                },
            },
        },
    }
}

pub open spec fn expression_parameter_decoder() -> spec_fn(JsonView) -> Result<
    ExpressionParameterView,
    LoadError,
> {
    |j: JsonView| expression_parameter_of(j)
}

pub open spec fn expression_parameters_of(items: Seq<JsonView>) -> Result<
    Seq<ExpressionParameterView>,
    LoadError,
> {
    try_map(items, expression_parameter_decoder())
}

/// The expression that a parsed document describes: its fade times, where it
/// gives them, and its `Parameters`.
pub open spec fn expression_of(j: JsonView) -> Result<ExpressionView, LoadError> {
    if !(j is Object) {
        Err(LoadError::Parse)
    } else {
        match j.scalar_field("FadeInTime"@) {
            Err(e) => Err(e),
            Ok(fade_in_time) => match j.scalar_field("FadeOutTime"@) {
                Err(e) => Err(e),
                Ok(fade_out_time) => match j.items_field("Parameters"@) {
                    Err(e) => Err(e),
                    Ok(items) => match expression_parameters_of(items) {
                        Err(e) => Err(e),
                        Ok(parameters) => Ok(
                            ExpressionView { fade_in_time, fade_out_time, parameters },
                        ),
                    },
                },
            },
        }
    }
}

/// The expression that a text describes.
pub open spec fn expression_text(bytes: Seq<u8>) -> Result<ExpressionView, LoadError> {
    match json_text(bytes) {
        None => Err(LoadError::Parse),
        Some(j) => expression_of(j),
    }
}

impl Blend {
    /// Reads a blend from its name; left out, it is `Add`.
    pub fn from_text(text: &Option<String>) -> (r: Result<Blend, LoadError>)
        ensures
            r == blend_of(text.deep_view()),
    {
        match text {
            None => Ok(Blend::Add),
            Some(t) => if text_is(t, "Add") {
                Ok(Blend::Add)
            } else if text_is(t, "Multiply") {
                Ok(Blend::Multiply)
            } else if text_is(t, "Overwrite") {
                Ok(Blend::Overwrite)
            } else {
                Err(LoadError::Parse)
            },
        }
    }
}

impl ExpressionParameter {
    pub fn from_json(j: &Json) -> (r: Result<ExpressionParameter, LoadError>)
        ensures
            outcome_view(r) == expression_parameter_of(j.deep_view()),
    {
        let id = require(j.text_field("Id"))?;
        let value = require(j.scalar_field("Value"))?;
        let text = j.text_field("Blend")?;
        let blend = Blend::from_text(&text)?;
        Ok(ExpressionParameter { id, value, blend })
    }

    /// Decodes a list of expression parameters, all or none.
    pub fn list_from_json(items: &Vec<Json>) -> (r: Result<Vec<ExpressionParameter>, LoadError>)
        ensures
            outcome_view(r) == expression_parameters_of(items.deep_view()),
    {
        let mut out: Vec<ExpressionParameter> = Vec::new();
        let mut i: usize = 0;
        let ghost all = items.deep_view();
        assert(out.deep_view() =~= Seq::<ExpressionParameterView>::empty());
        while i < items.len()
            invariant
                i <= items.len(),
                all == items.deep_view(),
                try_map(all.take(i as int), expression_parameter_decoder()) ==
                    Ok::<Seq<ExpressionParameterView>, LoadError>(
                    out.deep_view(),
                ),
            decreases items.len() - i,
        {
            proof {
                lemma_try_map_step(all, expression_parameter_decoder(), i as int);
            }
            match ExpressionParameter::from_json(&items[i]) {
                Ok(item) => {
                    let ghost before = out;
                    out.push(item);
                    proof {
                        lemma_deep_view_push(before, out, item);
                    }
                },
                Err(e) => {
                    proof {
                        lemma_try_map_fails(
                            all,
                            expression_parameter_decoder(),
                            i + 1,
                            all.len() as int,
                        );
                        assert(all.take(all.len() as int) =~= all);
                    }
                    return Err(e);
                },
            }
            i += 1;
        }
        assert(all.take(all.len() as int) =~= all);
        Ok(out)
    }
}

impl Expression {
    /// Reads an expression from a parsed document.
    pub fn from_json(j: &Json) -> (r: Result<Expression, LoadError>)
        ensures
            outcome_view(r) == expression_of(j.deep_view()),
    {
        if !j.is_object() {
            return Err(LoadError::Parse);
        }
        let fade_in_time = j.scalar_field("FadeInTime")?;
        let fade_out_time = j.scalar_field("FadeOutTime")?;
        let parameters = match j.items_field("Parameters")? {
            Some(items) => ExpressionParameter::list_from_json(items)?,
            None => Vec::new(),
        };
        assert(parameters.len() == 0 ==> parameters.deep_view() =~= Seq::<
            ExpressionParameterView,
        >::empty());
        Ok(Expression { fade_in_time, fade_out_time, parameters })
    }

    /// Reads an expression from its text.
    pub fn parse(bytes: &[u8]) -> (r: Result<Expression, LoadError>)
        ensures
            outcome_view(r) == expression_text(bytes@),
    {
        match Json::parse(bytes) {
            Some(j) => Expression::from_json(&j),
            None => Err(LoadError::Parse),
        }
    }
}

} // verus!
