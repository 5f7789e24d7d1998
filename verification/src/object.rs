//! Script objects as plain values, and what the library reads out of them.
use vstd::prelude::*;
use crate::geometry::{AvoidArea, AvoidAreaType, Rect};

verus! {

/// The value of a script property, as far as the library tells values apart.
pub enum JsValue {
    /// The property is missing or undefined.
    Undefined,
    /// A number, as it reads as a 32-bit integer.
    Number(i32),
    Bool(bool),
    Text(String),
    Object(JsObject),
    /// Anything else: null, a function, or a value that could not be read.
    Other,
}

/// A script object: its properties by name.
pub struct JsObject {
    pub properties: Vec<(String, JsValue)>,
}

/// The value of the first property called `name` among `properties`.
pub open spec fn lookup(properties: Seq<(String, JsValue)>, name: Seq<char>) -> JsValue
    decreases properties.len(),
{
    if properties.len() == 0 {
        JsValue::Undefined
    } else if properties[0].0@ == name {
        properties[0].1
    } else {
        lookup(properties.skip(1), name)
    }
}

impl JsObject {
    /// The value of the property `name`.
    pub open spec fn property(self, name: Seq<char>) -> JsValue {
        lookup(self.properties@, name)
    }

    /// The property `name` where it is a number.
    pub open spec fn number(self, name: Seq<char>) -> Option<i32> {
        match self.property(name) {
            JsValue::Number(n) => Some(n),
            _ => None,
        }
    }

    /// The property `name` where it is a boolean.
    pub open spec fn boolean(self, name: Seq<char>) -> Option<bool> {
        match self.property(name) {
            JsValue::Bool(b) => Some(b),
            _ => None,
        }
    }

    /// The property `name` where it is an object.
    pub open spec fn object(self, name: Seq<char>) -> Option<JsObject> {
        match self.property(name) {
            JsValue::Object(o) => Some(o),
            _ => None,
        }
    }

    /// The property `name`, if the object has one of that name.
    pub fn find(&self, name: &str) -> (r: Option<&JsValue>)
        ensures
            match r {
                Some(v) => *v == self.property(name@),
                None => self.property(name@) is Undefined,
            },
    {
        let wanted: String = name.to_owned();
        let mut i: usize = 0;
        proof {
            assert(self.properties@.skip(0) =~= self.properties@);
        }
        while i < self.properties.len()
            invariant
                i <= self.properties@.len(),
                wanted@ == name@,
                lookup(self.properties@.skip(i as int), name@) == self.property(name@),
            decreases self.properties@.len() - i,
        {
            let ghost rest = self.properties@.skip(i as int);
            assert(rest[0] == self.properties@[i as int]);
            assert(rest.skip(1) =~= self.properties@.skip(i + 1));
            if self.properties[i].0 == wanted {
                return Some(&self.properties[i].1);
            }
            i += 1;
        }
        None
    }

    /// Reads a number.
    pub fn get_number(&self, name: &str) -> (r: Option<i32>)
        ensures
            r == self.number(name@),
    {
        match self.find(name) {
            Some(JsValue::Number(n)) => Some(*n),
            _ => None,
        }
    }

    /// Reads a boolean.
    pub fn get_bool(&self, name: &str) -> (r: Option<bool>)
        ensures
            r == self.boolean(name@),
    {
        match self.find(name) {
            Some(JsValue::Bool(b)) => Some(*b),
            _ => None,
        }
    }

    /// Reads an object.
    pub fn get_object(&self, name: &str) -> (r: Option<&JsObject>)
        ensures
            match r {
                Some(o) => self.object(name@) == Some(*o),
                None => self.object(name@) is None,
            },
    {
        match self.find(name) {
            Some(JsValue::Object(o)) => Some(o),
            _ => None,
        }
    }
}

/// The rectangle that a script object describes: it has all four numbers.
pub open spec fn rect_in(rect: JsObject) -> Option<Rect> {
    match (rect.number("top"@), rect.number("left"@), rect.number("width"@), rect.number("height"@)) {
        (Some(top), Some(left), Some(width), Some(height)) => Some(
            Rect { top, left, width, height },
        ),
        _ => None,
    }
}

/// The rectangle in the property `name`.
pub open spec fn rect_at(area: JsObject, name: Seq<char>) -> Option<Rect> {
    match area.object(name) {
        Some(rect) => rect_in(rect),
        None => None,
    }
}

/// The area that a script object describes.
pub open spec fn area_in(area: JsObject) -> Option<AvoidArea> {
    match (
        area.boolean("visible"@),
        rect_at(area, "leftRect"@),
        rect_at(area, "topRect"@),
        rect_at(area, "rightRect"@),
        rect_at(area, "bottomRect"@),
    ) {
        (Some(visible), Some(left_rect), Some(top_rect), Some(right_rect), Some(bottom_rect)) => Some(
            AvoidArea { visible, left_rect, top_rect, right_rect, bottom_rect },
        ),
        _ => None,
    }
}

/// The typed area that the options object of a script call describes.
pub open spec fn avoid_area_in(options: JsObject) -> Option<(AvoidAreaType, AvoidArea)> {
    match (options.number("type"@), options.object("area"@)) {
        (Some(code), Some(area)) => match area_in(area) {
            Some(avoid_area) => Some((AvoidAreaType::of_code(code), avoid_area)),
            None => None,
        },
        _ => None,
    }
}

/// Reads a rectangle; `None` unless all four of its numbers are there.
pub fn parse_rect_from_object(rect: &JsObject) -> (r: Option<Rect>)
    ensures
        r == rect_in(*rect),
{
    let top: i32 = rect.get_number("top")?;
    let left: i32 = rect.get_number("left")?;
    let width: i32 = rect.get_number("width")?;
    let height: i32 = rect.get_number("height")?;
    Some(Rect { top, left, width, height })
}

/// Reads an avoid area with its type; `None` unless every part of it is there.
pub fn parse_avoid_area_options(options: &JsObject) -> (r: Option<(AvoidAreaType, AvoidArea)>)
    ensures
        r == avoid_area_in(*options),
        r matches Some((area_type, _)) ==> area_type.is_canonical(),
{
    let area_type: AvoidAreaType = AvoidAreaType::from(options.get_number("type")?);
    let area: &JsObject = options.get_object("area")?;
    let avoid_area: AvoidArea = AvoidArea {
        visible: area.get_bool("visible")?,
        left_rect: parse_rect_from_object(area.get_object("leftRect")?)?,
        top_rect: parse_rect_from_object(area.get_object("topRect")?)?,
        right_rect: parse_rect_from_object(area.get_object("rightRect")?)?,
        bottom_rect: parse_rect_from_object(area.get_object("bottomRect")?)?,
    };
    Some((area_type, avoid_area))
}

proof fn lookup_finds(properties: Seq<(String, JsValue)>, name: Seq<char>, i: int)
    requires
        0 <= i < properties.len(),
        properties[i].0@ == name,
        forall|j: int| 0 <= j < i ==> (#[trigger] properties[j]).0@ != name,
    ensures
        lookup(properties, name) == properties[i].1,
    decreases i,
{
    if i > 0 {
        assert(properties[0].0@ != name);
        let rest = properties.skip(1);
        assert forall|j: int| 0 <= j < i - 1 implies (#[trigger] rest[j]).0@ != name by {
            assert(rest[j] == properties[j + 1]);
        }
        lookup_finds(rest, name, i - 1);
    }
}

proof fn lookup_misses(properties: Seq<(String, JsValue)>, name: Seq<char>)
    requires
        forall|j: int| 0 <= j < properties.len() ==> (#[trigger] properties[j]).0@ != name,
    ensures
        lookup(properties, name) is Undefined,
    decreases properties.len(),
{
    if properties.len() > 0 {
        let rest = properties.skip(1);
        assert forall|j: int| 0 <= j < rest.len() implies (#[trigger] rest[j]).0@ != name by {
            assert(rest[j] == properties[j + 1]);
        }
        lookup_misses(rest, name);
    }
}

/// A property is found under its own name: the value is that of the first entry with
/// this name, and undefined where no entry has it.
pub proof fn properties_are_found_by_name(object: JsObject, name: Seq<char>, i: int)
    ensures
        0 <= i < object.properties@.len() && object.properties@[i].0@ == name && (forall|j: int|
            0 <= j < i ==> (#[trigger] object.properties@[j]).0@ != name) ==> object.property(name)
            == object.properties@[i].1,
        (forall|j: int|
            0 <= j < object.properties@.len() ==> (#[trigger] object.properties@[j]).0@ != name)
            ==> object.property(name) is Undefined,
{
    let entries = object.properties@;
    if 0 <= i < entries.len() && entries[i].0@ == name && (forall|j: int|
        0 <= j < i ==> (#[trigger] entries[j]).0@ != name) {
        lookup_finds(entries, name, i);
    }
    if forall|j: int| 0 <= j < entries.len() ==> (#[trigger] entries[j]).0@ != name {
        lookup_misses(entries, name);
    }
}

/// Reading by type gives exactly the values of that type, whatever they are.
pub proof fn typed_reads_keep_value(
    object: JsObject,
    name: Seq<char>,
    n: i32,
    b: bool,
    inner: JsObject,
)
    ensures
        object.number(name) == Some(n) <==> object.property(name) == JsValue::Number(n),
        object.number(name) is None <==> !(object.property(name) is Number),
        object.boolean(name) == Some(b) <==> object.property(name) == JsValue::Bool(b),
        object.boolean(name) is None <==> !(object.property(name) is Bool),
        object.object(name) == Some(inner) <==> object.property(name) == JsValue::Object(inner),
        object.object(name) is None <==> !(object.property(name) is Object),
{
}

/// A script object reads as a rectangle exactly where it holds the rectangle's four
/// numbers under their names; any four numbers will do, zero and negative ones too.
pub proof fn rect_reads_back(object: JsObject, rect: Rect)
    ensures
        rect_in(object) == Some(rect) <==> {
            &&& object.property("top"@) == JsValue::Number(rect.top)
            &&& object.property("left"@) == JsValue::Number(rect.left)
            &&& object.property("width"@) == JsValue::Number(rect.width)
            &&& object.property("height"@) == JsValue::Number(rect.height)
        },
        rect_in(object) is Some <==> {
            &&& object.property("top"@) is Number
            &&& object.property("left"@) is Number
            &&& object.property("width"@) is Number
            &&& object.property("height"@) is Number
        },
{
}

/// A nested object reads as a rectangle where it is there and is one.
pub proof fn nested_rect_reads_back(object: JsObject, name: Seq<char>, rect: Rect)
    ensures
        rect_at(object, name) == Some(rect) <==> (object.property(name) matches JsValue::Object(
            inner,
        ) && rect_in(inner) == Some(rect)),
{
}

/// The options of an avoid area read as a type and an area exactly where they hold the
/// type's number, and in the area its visibility and its four rectangles, each under its
/// own name. Only a missing part, or one of the wrong type, stands in the way.
pub proof fn avoid_area_reads_back(options: JsObject, area_type: AvoidAreaType, area: AvoidArea)
    ensures
        avoid_area_in(options) == Some((area_type, area)) <==> {
            &&& options.property("type"@) == JsValue::Number(area_type.code_of())
            &&& area_type == AvoidAreaType::of_code(area_type.code_of())
            &&& options.property("area"@) matches JsValue::Object(parts)
            &&& parts.property("visible"@) == JsValue::Bool(area.visible)
            &&& parts.property("leftRect"@) matches JsValue::Object(left)
            &&& rect_in(left) == Some(area.left_rect)
            &&& parts.property("topRect"@) matches JsValue::Object(top)
            &&& rect_in(top) == Some(area.top_rect)
            &&& parts.property("rightRect"@) matches JsValue::Object(right)
            &&& rect_in(right) == Some(area.right_rect)
            &&& parts.property("bottomRect"@) matches JsValue::Object(bottom)
            &&& rect_in(bottom) == Some(area.bottom_rect)
        },
        avoid_area_in(options) is Some <==> {
            &&& options.property("type"@) is Number
            &&& options.property("area"@) matches JsValue::Object(parts)
            &&& parts.property("visible"@) is Bool
            &&& parts.property("leftRect"@) matches JsValue::Object(left)
            &&& rect_in(left) is Some
            &&& parts.property("topRect"@) matches JsValue::Object(top)
            &&& rect_in(top) is Some
            &&& parts.property("rightRect"@) matches JsValue::Object(right)
            &&& rect_in(right) is Some
            &&& parts.property("bottomRect"@) matches JsValue::Object(bottom)
            &&& rect_in(bottom) is Some
        },
{
}

} // verus!
