//! The data a shape diff reads and reports: JSON values, the two kinds of
//! trails, shape kinds, candidate alternatives and diff records.

use vstd::prelude::*;

verus! {

/// The category of shape that a specification admits at a position.
#[derive(Clone, Copy, Debug, PartialEq, Eq, Structural)]
pub enum ShapeKind {
    ObjectKind,
    ListKind,
    MapKind,
    OneOfKind,
    NullableKind,
    OptionalKind,
    StringKind,
    NumberKind,
    BooleanKind,
    AnyKind,
    UnknownKind,
}

/// An observed JSON value. A number is kept as the text it was written with.
#[derive(Debug)]
pub enum JsonValue {
    Null,
    Bool(bool),
    Number(String),
    String(String),
    Array(Vec<JsonValue>),
    Object(Vec<(String, JsonValue)>),
}

impl JsonValue {
    /// A scalar: null, a boolean, a number or a string.
    pub open spec fn is_primitive(&self) -> bool {
        !(self is Array) && !(self is Object)
    }
}

/// Whether a value of `json`'s runtime kind conforms to a shape of `kind`.
pub open spec fn accepts(json: JsonValue, kind: ShapeKind) -> bool {
    match json {
        JsonValue::Bool(_) => kind == ShapeKind::BooleanKind,
        JsonValue::Number(_) => kind == ShapeKind::NumberKind,
        JsonValue::String(_) => kind == ShapeKind::StringKind,
        JsonValue::Null => kind == ShapeKind::NullableKind,
        JsonValue::Array(_) => kind == ShapeKind::ListKind,
        JsonValue::Object(_) => kind == ShapeKind::ObjectKind,
    }
}

/// Decides `accepts(*json, kind)`.
pub fn accepts_kind(json: &JsonValue, kind: ShapeKind) -> (r: bool)
    ensures
        r == accepts(*json, kind),
{
    match json {
        JsonValue::Bool(_) => kind == ShapeKind::BooleanKind,
        JsonValue::Number(_) => kind == ShapeKind::NumberKind,
        JsonValue::String(_) => kind == ShapeKind::StringKind,
        JsonValue::Null => kind == ShapeKind::NullableKind,
        JsonValue::Array(_) => kind == ShapeKind::ListKind,
        JsonValue::Object(_) => kind == ShapeKind::ObjectKind,
    }
}

/// One step into an observed JSON value.
#[derive(Clone, Debug, PartialEq, Eq)]
pub enum JsonTrailPathComponent {
    JsonObjectKey { key: String },
    JsonArrayItem { index: usize },
}

impl JsonTrailPathComponent {
    /// An equal copy.
    pub fn duplicate(&self) -> (r: Self)
        ensures
            r == *self,
    {
        match self {
            JsonTrailPathComponent::JsonObjectKey { key } => JsonTrailPathComponent::JsonObjectKey {
                key: key.clone(),
            },
            JsonTrailPathComponent::JsonArrayItem { index } => JsonTrailPathComponent::JsonArrayItem {
                index: *index,
            },
        }
    }
}

/// Copies `steps` into a new vector.
fn duplicate_json_steps(steps: &Vec<JsonTrailPathComponent>) -> (r: Vec<JsonTrailPathComponent>)
    ensures
        r@ == steps@,
{
    let mut r: Vec<JsonTrailPathComponent> = Vec::new();
    let mut i: usize = 0;
    while i < steps.len()
        invariant
            i <= steps@.len(),
            r@ == steps@.subrange(0, i as int),
        decreases steps@.len() - i,
    {
        r.push(steps[i].duplicate());
        i = i + 1;
    }
    assert(r@ == steps@);
    r
}

/// The location of a value inside an observed JSON body.
#[derive(Clone, Debug, PartialEq, Eq)]
pub struct JsonTrail {
    pub path: Vec<JsonTrailPathComponent>,
}

impl View for JsonTrail {
    type V = Seq<JsonTrailPathComponent>;

    open spec fn view(&self) -> Seq<JsonTrailPathComponent> {
        self.path@
    }
}

impl JsonTrail {
    /// The trail of the body's root.
    pub fn empty() -> (r: Self)
        ensures
            r@ == Seq::<JsonTrailPathComponent>::empty(),
    {
        JsonTrail { path: Vec::new() }
    }

    /// This trail extended by one step.
    pub fn with_component(&self, component: JsonTrailPathComponent) -> (r: Self)
        ensures
            r@ == self@.push(component),
    {
        let mut path = duplicate_json_steps(&self.path);
        path.push(component);
        JsonTrail { path }
    }

    /// An equal copy.
    pub fn duplicate(&self) -> (r: Self)
        ensures
            r@ == self@,
    {
        JsonTrail { path: duplicate_json_steps(&self.path) }
    }
}

/// One step into a recorded shape definition.
#[derive(Clone, Debug, PartialEq, Eq)]
pub enum ShapeTrailPathComponent {
    ObjectTrail { shape_id: String },
    ObjectFieldTrail { field_id: String, field_shape_id: String },
    ListTrail { list_shape_id: String },
    ListItemTrail { list_shape_id: String, item_shape_id: String },
    OneOfTrail { one_of_id: String },
    OneOfItemTrail { one_of_id: String, parent_shape_id: String, item_shape_id: String },
    NullableTrail { shape_id: String },
    OptionalTrail { shape_id: String },
}

impl ShapeTrailPathComponent {
    /// An equal copy.
    pub fn duplicate(&self) -> (r: Self)
        ensures
            r == *self,
    {
        match self {
            ShapeTrailPathComponent::ObjectTrail { shape_id } => ShapeTrailPathComponent::ObjectTrail {
                shape_id: shape_id.clone(),
            },
            ShapeTrailPathComponent::ObjectFieldTrail { field_id, field_shape_id } => {
                ShapeTrailPathComponent::ObjectFieldTrail {
                    field_id: field_id.clone(),
                    field_shape_id: field_shape_id.clone(),
                }
            },
            ShapeTrailPathComponent::ListTrail { list_shape_id } => ShapeTrailPathComponent::ListTrail {
                list_shape_id: list_shape_id.clone(),
            },
            ShapeTrailPathComponent::ListItemTrail { list_shape_id, item_shape_id } => {
                ShapeTrailPathComponent::ListItemTrail {
                    list_shape_id: list_shape_id.clone(),
                    item_shape_id: item_shape_id.clone(),
                }
            },
            ShapeTrailPathComponent::OneOfTrail { one_of_id } => ShapeTrailPathComponent::OneOfTrail {
                one_of_id: one_of_id.clone(),
            },
            ShapeTrailPathComponent::OneOfItemTrail { one_of_id, parent_shape_id, item_shape_id } => {
                ShapeTrailPathComponent::OneOfItemTrail {
                    one_of_id: one_of_id.clone(),
                    parent_shape_id: parent_shape_id.clone(),
                    item_shape_id: item_shape_id.clone(),
                }
            },
            ShapeTrailPathComponent::NullableTrail { shape_id } => ShapeTrailPathComponent::NullableTrail {
                shape_id: shape_id.clone(),
            },
            ShapeTrailPathComponent::OptionalTrail { shape_id } => ShapeTrailPathComponent::OptionalTrail {
                shape_id: shape_id.clone(),
            },
        }
    }
}

/// Appends copies of `steps` to `out`.
fn extend_shape_steps(out: &mut Vec<ShapeTrailPathComponent>, steps: &Vec<ShapeTrailPathComponent>)
    ensures
        final(out)@ == old(out)@ + steps@,
{
    let ghost start = out@;
    let mut i: usize = 0;
    while i < steps.len()
        invariant
            i <= steps@.len(),
            out@ == start + steps@.subrange(0, i as int),
        decreases steps@.len() - i,
    {
        out.push(steps[i].duplicate());
        i = i + 1;
        assert(out@ == start + steps@.subrange(0, i as int));
    }
    assert(steps@.subrange(0, steps@.len() as int) == steps@);
}

/// What a shape trail denotes: a root shape and the steps taken from it.
pub struct ShapeTrailModel {
    pub root_shape_id: Seq<char>,
    pub path: Seq<ShapeTrailPathComponent>,
}

/// The location of a position inside a recorded shape definition.
#[derive(Clone, Debug, PartialEq, Eq)]
pub struct ShapeTrail {
    pub root_shape_id: String,
    pub path: Vec<ShapeTrailPathComponent>,
}

impl View for ShapeTrail {
    type V = ShapeTrailModel;

    open spec fn view(&self) -> ShapeTrailModel {
        ShapeTrailModel { root_shape_id: self.root_shape_id@, path: self.path@ }
    }
}

impl ShapeTrail {
    /// The trail of a root shape, with no steps.
    pub fn new(root_shape_id: String) -> (r: Self)
        ensures
            r@ == (ShapeTrailModel { root_shape_id: root_shape_id@, path: Seq::empty() }),
    {
        ShapeTrail { root_shape_id, path: Vec::new() }
    }

    /// This trail extended by one step.
    pub fn with_component(&self, component: ShapeTrailPathComponent) -> (r: Self)
        ensures
            r@ == (ShapeTrailModel { root_shape_id: self@.root_shape_id, path: self@.path.push(component) }),
    {
        let mut path: Vec<ShapeTrailPathComponent> = Vec::new();
        extend_shape_steps(&mut path, &self.path);
        path.push(component);
        ShapeTrail { root_shape_id: self.root_shape_id.clone(), path }
    }
}

/// One shape that the specification admits at a position.
#[derive(Clone, Debug)]
pub struct ChoiceOutput {
    pub parent_trail: ShapeTrail,
    pub additional_components: Vec<ShapeTrailPathComponent>,
    pub shape_id: String,
    pub core_shape_kind: ShapeKind,
}

impl ChoiceOutput {
    /// The alternative's own trail: its parent trail followed by its
    /// additional steps.
    pub open spec fn trail(&self) -> ShapeTrailModel {
        ShapeTrailModel {
            root_shape_id: self.parent_trail@.root_shape_id,
            path: self.parent_trail@.path + self.additional_components@,
        }
    }

    /// Builds the alternative's own trail.
    pub fn shape_trail(&self) -> (r: ShapeTrail)
        ensures
            r@ == self.trail(),
    {
        let mut path: Vec<ShapeTrailPathComponent> = Vec::new();
        extend_shape_steps(&mut path, &self.parent_trail.path);
        extend_shape_steps(&mut path, &self.additional_components);
        ShapeTrail { root_shape_id: self.parent_trail.root_shape_id.clone(), path }
    }
}

/// What a diff record reports, over the trails' models.
pub enum DiffRecord {
    Unspecified { json_trail: Seq<JsonTrailPathComponent>, shape_trail: ShapeTrailModel },
    Unmatched { json_trail: Seq<JsonTrailPathComponent>, shape_trail: ShapeTrailModel },
}

/// A disagreement between an observed value and the specification.
#[derive(Clone, Debug, PartialEq, Eq)]
pub enum ShapeDiffResult {
    /// The specification admits nothing at this position.
    UnspecifiedShape { json_trail: JsonTrail, shape_trail: ShapeTrail },
    /// The value does not conform to this one alternative.
    UnmatchedShape { json_trail: JsonTrail, shape_trail: ShapeTrail },
}

impl View for ShapeDiffResult {
    type V = DiffRecord;

    open spec fn view(&self) -> DiffRecord {
        match self {
            ShapeDiffResult::UnspecifiedShape { json_trail, shape_trail } => DiffRecord::Unspecified {
                json_trail: json_trail@,
                shape_trail: shape_trail@,
            },
            ShapeDiffResult::UnmatchedShape { json_trail, shape_trail } => DiffRecord::Unmatched {
                json_trail: json_trail@,
                shape_trail: shape_trail@,
            },
        }
    }
}

} // verus!
