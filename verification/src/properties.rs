//! Descriptions of the fields of the settings panels OBS renders for
//! sources, outputs, encoders and services.
//!
//! A [`Properties`] value is the ordered list of fields a plugin asks libobs
//! to create, each with its key, its localized description and its kind;
//! the kinds carry exactly the arguments libobs's `obs_properties_add_*`
//! functions receive.


use std::marker::PhantomData;

use vstd::prelude::*;
use vstd::string::StringExecFns;

use crate::native::UnknownNativeValue;

verus! {

/// How a text property is edited.
#[derive(Debug, Clone, Copy, PartialEq, Eq, Structural)]
pub enum TextType {
    /// single-line input
    Default,
    /// masked input
    Password,
    /// multi-line input
    Multiline,
}

impl TextType {
    /// The libobs enumerant of this value.
    pub open spec fn spec_raw(self) -> u32 {
        match self {
            TextType::Default => 0,
            TextType::Password => 1,
            TextType::Multiline => 2,
        }
    }

    /// The value whose enumerant is `raw`, if there is one.
    pub open spec fn spec_from_raw(raw: u32) -> Option<TextType> {
        if raw == 0 {
            Some(TextType::Default)
        } else if raw == 1 {
            Some(TextType::Password)
        } else if raw == 2 {
            Some(TextType::Multiline)
        } else {
            None
        }
    }

    /// Converts to the underlying libobs enumerant.
    pub fn as_raw(self) -> (r: u32)
        ensures
            r == self.spec_raw(),
    {
        match self {
            TextType::Default => 0,
            TextType::Password => 1,
            TextType::Multiline => 2,
        }
    }

    /// Maps a libobs enumerant to a value; unknown enumerants are returned
    /// in the error.
    pub fn from_raw(raw: u32) -> (r: Result<TextType, UnknownNativeValue>)
        ensures
            match r {
                Ok(v) => Self::spec_from_raw(raw) == Some(v),
                Err(e) => Self::spec_from_raw(raw) is None && e.raw == raw,
            },
    {
        match raw {
            0 => Ok(TextType::Default),
            1 => Ok(TextType::Password),
            2 => Ok(TextType::Multiline),
            _ => Err(UnknownNativeValue { raw }),
        }
    }
}

/// Converting a value to its enumerant and back gives the same value, and
/// an enumerant that names a value is that value's enumerant.
pub proof fn lemma_text_type_raw_roundtrip(v: TextType, raw: u32)
    ensures
        TextType::spec_from_raw(v.spec_raw()) == Some(v),
        TextType::spec_from_raw(raw) matches Some(w) ==> w.spec_raw() == raw,
{
}
/// What a path property picks.
#[derive(Debug, Clone, Copy, PartialEq, Eq, Structural)]
pub enum PathType {
    /// an existing file
    File,
    /// a file to save to
    FileSave,
    /// a directory
    Directory,
}

impl PathType {
    /// The libobs enumerant of this value.
    pub open spec fn spec_raw(self) -> u32 {
        match self {
            PathType::File => 0,
            PathType::FileSave => 1,
            PathType::Directory => 2,
        }
    }

    /// The value whose enumerant is `raw`, if there is one.
    pub open spec fn spec_from_raw(raw: u32) -> Option<PathType> {
        if raw == 0 {
            Some(PathType::File)
        } else if raw == 1 {
            Some(PathType::FileSave)
        } else if raw == 2 {
            Some(PathType::Directory)
        } else {
            None
        }
    }

    /// Converts to the underlying libobs enumerant.
    pub fn as_raw(self) -> (r: u32)
        ensures
            r == self.spec_raw(),
    {
        match self {
            PathType::File => 0,
            PathType::FileSave => 1,
            PathType::Directory => 2,
        }
    }

    /// Maps a libobs enumerant to a value; unknown enumerants are returned
    /// in the error.
    pub fn from_raw(raw: u32) -> (r: Result<PathType, UnknownNativeValue>)
        ensures
            match r {
                Ok(v) => Self::spec_from_raw(raw) == Some(v),
                Err(e) => Self::spec_from_raw(raw) is None && e.raw == raw,
            },
    {
        match raw {
            0 => Ok(PathType::File),
            1 => Ok(PathType::FileSave),
            2 => Ok(PathType::Directory),
            _ => Err(UnknownNativeValue { raw }),
        }
    }
}

/// Converting a value to its enumerant and back gives the same value, and
/// an enumerant that names a value is that value's enumerant.
pub proof fn lemma_path_type_raw_roundtrip(v: PathType, raw: u32)
    ensures
        PathType::spec_from_raw(v.spec_raw()) == Some(v),
        PathType::spec_from_raw(raw) matches Some(w) ==> w.spec_raw() == raw,
{
}
/// The value type stored by a list property.
#[derive(Debug, Clone, Copy, PartialEq, Eq, Structural)]
pub enum ComboFormat {
    Invalid,
    Int,
    Float,
    String,
}

impl ComboFormat {
    /// The libobs enumerant of this value.
    pub open spec fn spec_raw(self) -> u32 {
        match self {
            ComboFormat::Invalid => 0,
            ComboFormat::Int => 1,
            ComboFormat::Float => 2,
            ComboFormat::String => 3,
        }
    }

    /// The value whose enumerant is `raw`, if there is one.
    pub open spec fn spec_from_raw(raw: u32) -> Option<ComboFormat> {
        if raw == 0 {
            Some(ComboFormat::Invalid)
        } else if raw == 1 {
            Some(ComboFormat::Int)
        } else if raw == 2 {
            Some(ComboFormat::Float)
        } else if raw == 3 {
            Some(ComboFormat::String)
        } else {
            None
        }
    }

    /// Converts to the underlying libobs enumerant.
    pub fn as_raw(self) -> (r: u32)
        ensures
            r == self.spec_raw(),
    {
        match self {
            ComboFormat::Invalid => 0,
            ComboFormat::Int => 1,
            ComboFormat::Float => 2,
            ComboFormat::String => 3,
        }
    }

    /// Maps a libobs enumerant to a value; unknown enumerants are returned
    /// in the error.
    pub fn from_raw(raw: u32) -> (r: Result<ComboFormat, UnknownNativeValue>)
        ensures
            match r {
                Ok(v) => Self::spec_from_raw(raw) == Some(v),
                Err(e) => Self::spec_from_raw(raw) is None && e.raw == raw,
            },
    {
        match raw {
            0 => Ok(ComboFormat::Invalid),
            1 => Ok(ComboFormat::Int),
            2 => Ok(ComboFormat::Float),
            3 => Ok(ComboFormat::String),
            _ => Err(UnknownNativeValue { raw }),
        }
    }
}

/// Converting a value to its enumerant and back gives the same value, and
/// an enumerant that names a value is that value's enumerant.
pub proof fn lemma_combo_format_raw_roundtrip(v: ComboFormat, raw: u32)
    ensures
        ComboFormat::spec_from_raw(v.spec_raw()) == Some(v),
        ComboFormat::spec_from_raw(raw) matches Some(w) ==> w.spec_raw() == raw,
{
}
/// How a list property is presented.
#[derive(Debug, Clone, Copy, PartialEq, Eq, Structural)]
pub enum ComboType {
    Invalid,
    /// the user may type free-form values
    Editable,
    /// the user picks one of the items
    List,
}

impl ComboType {
    /// The libobs enumerant of this value.
    pub open spec fn spec_raw(self) -> u32 {
        match self {
            ComboType::Invalid => 0,
            ComboType::Editable => 1,
            ComboType::List => 2,
        }
    }

    /// The value whose enumerant is `raw`, if there is one.
    pub open spec fn spec_from_raw(raw: u32) -> Option<ComboType> {
        if raw == 0 {
            Some(ComboType::Invalid)
        } else if raw == 1 {
            Some(ComboType::Editable)
        } else if raw == 2 {
            Some(ComboType::List)
        } else {
            None
        }
    }

    /// Converts to the underlying libobs enumerant.
    pub fn as_raw(self) -> (r: u32)
        ensures
            r == self.spec_raw(),
    {
        match self {
            ComboType::Invalid => 0,
            ComboType::Editable => 1,
            ComboType::List => 2,
        }
    }

    /// Maps a libobs enumerant to a value; unknown enumerants are returned
    /// in the error.
    pub fn from_raw(raw: u32) -> (r: Result<ComboType, UnknownNativeValue>)
        ensures
            match r {
                Ok(v) => Self::spec_from_raw(raw) == Some(v),
                Err(e) => Self::spec_from_raw(raw) is None && e.raw == raw,
            },
    {
        match raw {
            0 => Ok(ComboType::Invalid),
            1 => Ok(ComboType::Editable),
            2 => Ok(ComboType::List),
            _ => Err(UnknownNativeValue { raw }),
        }
    }
}

/// Converting a value to its enumerant and back gives the same value, and
/// an enumerant that names a value is that value's enumerant.
pub proof fn lemma_combo_type_raw_roundtrip(v: ComboType, raw: u32)
    ensures
        ComboType::spec_from_raw(v.spec_raw()) == Some(v),
        ComboType::spec_from_raw(raw) matches Some(w) ==> w.spec_raw() == raw,
{
}
/// What an editable list holds.
#[derive(Debug, Clone, Copy, PartialEq, Eq, Structural)]
pub enum EditableListType {
    Strings,
    Files,
    FilesAndUrls,
}

impl EditableListType {
    /// The libobs enumerant of this value.
    pub open spec fn spec_raw(self) -> u32 {
        match self {
            EditableListType::Strings => 0,
            EditableListType::Files => 1,
            EditableListType::FilesAndUrls => 2,
        }
    }

    /// The value whose enumerant is `raw`, if there is one.
    pub open spec fn spec_from_raw(raw: u32) -> Option<EditableListType> {
        if raw == 0 {
            Some(EditableListType::Strings)
        } else if raw == 1 {
            Some(EditableListType::Files)
        } else if raw == 2 {
            Some(EditableListType::FilesAndUrls)
        } else {
            None
        }
    }

    /// Converts to the underlying libobs enumerant.
    pub fn as_raw(self) -> (r: u32)
        ensures
            r == self.spec_raw(),
    {
        match self {
            EditableListType::Strings => 0,
            EditableListType::Files => 1,
            EditableListType::FilesAndUrls => 2,
        }
    }

    /// Maps a libobs enumerant to a value; unknown enumerants are returned
    /// in the error.
    pub fn from_raw(raw: u32) -> (r: Result<EditableListType, UnknownNativeValue>)
        ensures
            match r {
                Ok(v) => Self::spec_from_raw(raw) == Some(v),
                Err(e) => Self::spec_from_raw(raw) is None && e.raw == raw,
            },
    {
        match raw {
            0 => Ok(EditableListType::Strings),
            1 => Ok(EditableListType::Files),
            2 => Ok(EditableListType::FilesAndUrls),
            _ => Err(UnknownNativeValue { raw }),
        }
    }
}

/// Converting a value to its enumerant and back gives the same value, and
/// an enumerant that names a value is that value's enumerant.
pub proof fn lemma_editable_list_type_raw_roundtrip(v: EditableListType, raw: u32)
    ensures
        EditableListType::spec_from_raw(v.spec_raw()) == Some(v),
        EditableListType::spec_from_raw(raw) matches Some(w) ==> w.spec_raw() == raw,
{
}

/// An integer type that can back a [`NumberProp`]: its bounds, one, and
/// the overflow-free arithmetic the builder needs.
pub trait PropInt: Sized + Copy {
    /// The value as a mathematical integer.
    spec fn spec_int(self) -> int;

    /// The smallest value of the type.
    spec fn spec_min() -> int;

    /// The largest value of the type.
    spec fn spec_max() -> int;

    /// The smallest value of the type.
    fn min_value() -> (r: Self)
        ensures
            r.spec_int() == Self::spec_min(),
    ;

    /// The largest value of the type.
    fn max_value() -> (r: Self)
        ensures
            r.spec_int() == Self::spec_max(),
    ;

    /// One.
    fn one() -> (r: Self)
        ensures
            r.spec_int() == 1,
    ;

    /// `self + other`, which must not overflow.
    fn plus(self, other: Self) -> (r: Self)
        requires
            Self::spec_min() <= self.spec_int() + other.spec_int() <= Self::spec_max(),
        ensures
            r.spec_int() == self.spec_int() + other.spec_int(),
    ;

    /// `self - other`, which must not overflow.
    fn minus(self, other: Self) -> (r: Self)
        requires
            Self::spec_min() <= self.spec_int() - other.spec_int() <= Self::spec_max(),
        ensures
            r.spec_int() == self.spec_int() - other.spec_int(),
    ;

    /// The value as a C `int`, or `None` if it does not fit.
    fn to_c_int(self) -> (r: Option<i32>)
        ensures
            r == if i32::MIN <= self.spec_int() <= i32::MAX {
                Some(self.spec_int() as i32)
            } else {
                None::<i32>
            },
    ;
}

impl PropInt for i8 {
    open spec fn spec_int(self) -> int {
        self as int
    }

    open spec fn spec_min() -> int {
        i8::MIN as int
    }

    open spec fn spec_max() -> int {
        i8::MAX as int
    }

    fn min_value() -> (r: Self) {
        i8::MIN
    }

    fn max_value() -> (r: Self) {
        i8::MAX
    }

    fn one() -> (r: Self) {
        1
    }

    fn plus(self, other: Self) -> (r: Self) {
        self + other
    }

    fn minus(self, other: Self) -> (r: Self) {
        self - other
    }

    fn to_c_int(self) -> (r: Option<i32>) {
        Some(self as i32)
    }
}

impl PropInt for i16 {
    open spec fn spec_int(self) -> int {
        self as int
    }

    open spec fn spec_min() -> int {
        i16::MIN as int
    }

    open spec fn spec_max() -> int {
        i16::MAX as int
    }

    fn min_value() -> (r: Self) {
        i16::MIN
    }

    fn max_value() -> (r: Self) {
        i16::MAX
    }

    fn one() -> (r: Self) {
        1
    }

    fn plus(self, other: Self) -> (r: Self) {
        self + other
    }

    fn minus(self, other: Self) -> (r: Self) {
        self - other
    }

    fn to_c_int(self) -> (r: Option<i32>) {
        Some(self as i32)
    }
}

impl PropInt for i32 {
    open spec fn spec_int(self) -> int {
        self as int
    }

    open spec fn spec_min() -> int {
        i32::MIN as int
    }

    open spec fn spec_max() -> int {
        i32::MAX as int
    }

    fn min_value() -> (r: Self) {
        i32::MIN
    }

    fn max_value() -> (r: Self) {
        i32::MAX
    }

    fn one() -> (r: Self) {
        1
    }

    fn plus(self, other: Self) -> (r: Self) {
        self + other
    }

    fn minus(self, other: Self) -> (r: Self) {
        self - other
    }

    fn to_c_int(self) -> (r: Option<i32>) {
        Some(self)
    }
}

impl PropInt for i64 {
    open spec fn spec_int(self) -> int {
        self as int
    }

    open spec fn spec_min() -> int {
        i64::MIN as int
    }

    open spec fn spec_max() -> int {
        i64::MAX as int
    }

    fn min_value() -> (r: Self) {
        i64::MIN
    }

    fn max_value() -> (r: Self) {
        i64::MAX
    }

    fn one() -> (r: Self) {
        1
    }

    fn plus(self, other: Self) -> (r: Self) {
        self + other
    }

    fn minus(self, other: Self) -> (r: Self) {
        self - other
    }

    fn to_c_int(self) -> (r: Option<i32>) {
        if i32::MIN as i64 <= self && self <= i32::MAX as i64 {
            Some(self as i32)
        } else {
            None
        }
    }
}

impl PropInt for u8 {
    open spec fn spec_int(self) -> int {
        self as int
    }

    open spec fn spec_min() -> int {
        u8::MIN as int
    }

    open spec fn spec_max() -> int {
        u8::MAX as int
    }

    fn min_value() -> (r: Self) {
        u8::MIN
    }

    fn max_value() -> (r: Self) {
        u8::MAX
    }

    fn one() -> (r: Self) {
        1
    }

    fn plus(self, other: Self) -> (r: Self) {
        self + other
    }

    fn minus(self, other: Self) -> (r: Self) {
        self - other
    }

    fn to_c_int(self) -> (r: Option<i32>) {
        Some(self as i32)
    }
}

impl PropInt for u16 {
    open spec fn spec_int(self) -> int {
        self as int
    }

    open spec fn spec_min() -> int {
        u16::MIN as int
    }

    open spec fn spec_max() -> int {
        u16::MAX as int
    }

    fn min_value() -> (r: Self) {
        u16::MIN
    }

    fn max_value() -> (r: Self) {
        u16::MAX
    }

    fn one() -> (r: Self) {
        1
    }

    fn plus(self, other: Self) -> (r: Self) {
        self + other
    }

    fn minus(self, other: Self) -> (r: Self) {
        self - other
    }

    fn to_c_int(self) -> (r: Option<i32>) {
        Some(self as i32)
    }
}

impl PropInt for u32 {
    open spec fn spec_int(self) -> int {
        self as int
    }

    open spec fn spec_min() -> int {
        u32::MIN as int
    }

    open spec fn spec_max() -> int {
        u32::MAX as int
    }

    fn min_value() -> (r: Self) {
        u32::MIN
    }

    fn max_value() -> (r: Self) {
        u32::MAX
    }

    fn one() -> (r: Self) {
        1
    }

    fn plus(self, other: Self) -> (r: Self) {
        self + other
    }

    fn minus(self, other: Self) -> (r: Self) {
        self - other
    }

    fn to_c_int(self) -> (r: Option<i32>) {
        if self <= i32::MAX as u32 {
            Some(self as i32)
        } else {
            None
        }
    }
}

impl PropInt for u64 {
    open spec fn spec_int(self) -> int {
        self as int
    }

    open spec fn spec_min() -> int {
        u64::MIN as int
    }

    open spec fn spec_max() -> int {
        u64::MAX as int
    }

    fn min_value() -> (r: Self) {
        u64::MIN
    }

    fn max_value() -> (r: Self) {
        u64::MAX
    }

    fn one() -> (r: Self) {
        1
    }

    fn plus(self, other: Self) -> (r: Self) {
        self + other
    }

    fn minus(self, other: Self) -> (r: Self) {
        self - other
    }

    fn to_c_int(self) -> (r: Option<i32>) {
        if self <= i32::MAX as u64 {
            Some(self as i32)
        } else {
            None
        }
    }
}

/// One end of a range given to [`NumberProp::with_range`], as in
/// `std::ops::Bound`.
#[derive(Debug, Clone, Copy, PartialEq, Eq)]
pub enum RangeBound<T> {
    /// The end value is part of the range.
    Included(T),
    /// The end value is just outside the range.
    Excluded(T),
    /// The range does not end on this side.
    Unbounded,
}

/// An integer property, with an optional slider presentation.
///
/// Construct with [`NumberProp::new_int`], then refine using the builder
/// methods. Add to a [`Properties`] via [`Properties::add`], which requires
/// `min`, `max` and `step` to fit in a C `int`.
pub struct NumberProp<T> {
    min: T,
    max: T,
    step: T,
    slider: bool,
}

impl<T: PropInt> NumberProp<T> {
    /// The smallest accepted value.
    pub closed spec fn spec_min(&self) -> int {
        self.min.spec_int()
    }

    /// The largest accepted value.
    pub closed spec fn spec_max(&self) -> int {
        self.max.spec_int()
    }

    /// The increment between adjacent values.
    pub closed spec fn spec_step(&self) -> int {
        self.step.spec_int()
    }

    /// Whether the property is shown as a slider.
    pub closed spec fn spec_slider(&self) -> bool {
        self.slider
    }

    /// Creates a new integer property covering the full range of `T`,
    /// with a step of 1.
    pub fn new_int() -> (r: Self)
        ensures
            r.spec_min() == T::spec_min(),
            r.spec_max() == T::spec_max(),
            r.spec_step() == 1,
            !r.spec_slider(),
    {
        NumberProp { min: T::min_value(), max: T::max_value(), step: T::one(), slider: false }
    }

    /// Sets the increment between adjacent valid values.
    pub fn with_step(self, step: T) -> (r: Self)
        ensures
            r.spec_step() == step.spec_int(),
            r.spec_min() == self.spec_min(),
            r.spec_max() == self.spec_max(),
            r.spec_slider() == self.spec_slider(),
    {
        NumberProp { step, ..self }
    }

    /// Whether [`with_range`](Self::with_range) can take `range`: an
    /// excluded bound must stay within `T` when the step is added to (for
    /// the start) or taken from (for the end) it.
    pub open spec fn spec_range_fits(&self, range: (RangeBound<T>, RangeBound<T>)) -> bool {
        &&& range.0 matches RangeBound::Excluded(m) ==> T::spec_min() <= m.spec_int()
            + self.spec_step() <= T::spec_max()
        &&& range.1 matches RangeBound::Excluded(m) ==> T::spec_min() <= m.spec_int()
            - self.spec_step() <= T::spec_max()
    }

    /// Sets the value range from a start and an end bound.
    ///
    /// Excluded bounds are converted to inclusive bounds by adding or
    /// subtracting the current step, so the result depends on the step
    /// configured at the time of this call.
    pub fn with_range(self, range: (RangeBound<T>, RangeBound<T>)) -> (r: Self)
        requires
            self.spec_range_fits(range),
        ensures
            r.spec_min() == match range.0 {
                RangeBound::Included(m) => m.spec_int(),
                RangeBound::Excluded(m) => m.spec_int() + self.spec_step(),
                RangeBound::Unbounded => T::spec_min(),
            },
            r.spec_max() == match range.1 {
                RangeBound::Included(m) => m.spec_int(),
                RangeBound::Excluded(m) => m.spec_int() - self.spec_step(),
                RangeBound::Unbounded => T::spec_max(),
            },
            r.spec_step() == self.spec_step(),
            r.spec_slider() == self.spec_slider(),
    {
        let min = match range.0 {
            RangeBound::Included(m) => m,
            RangeBound::Excluded(m) => m.plus(self.step),
            RangeBound::Unbounded => T::min_value(),
        };
        let max = match range.1 {
            RangeBound::Included(m) => m,
            RangeBound::Excluded(m) => m.minus(self.step),
            RangeBound::Unbounded => T::max_value(),
        };
        NumberProp { min, max, ..self }
    }

    /// Renders the property as a slider rather than a spin box.
    pub fn with_slider(self) -> (r: Self)
        ensures
            r.spec_slider(),
            r.spec_min() == self.spec_min(),
            r.spec_max() == self.spec_max(),
            r.spec_step() == self.spec_step(),
    {
        NumberProp { slider: true, ..self }
    }

    /// Whether `min`, `max` and `step` all fit in a C `int`, so that the
    /// property can be added.
    pub fn fits_c_int(&self) -> (r: bool)
        ensures
            r == self.spec_can_add(),
    {
        self.min.to_c_int().is_some() && self.max.to_c_int().is_some()
            && self.step.to_c_int().is_some()
    }
}

/// The kind of a field, with the arguments libobs receives for it.
#[derive(Debug)]
#[allow(inconsistent_fields)]
pub enum PropertyKind {
    /// A checkbox (`obs_properties_add_bool`).
    Bool,
    /// A color picker (`obs_properties_add_color`).
    Color,
    /// A font picker (`obs_properties_add_font`).
    Font,
    /// A text input (`obs_properties_add_text`).
    Text(TextType),
    /// An integer spin box (`obs_properties_add_int`).
    Int { min: i32, max: i32, step: i32 },
    /// An integer slider (`obs_properties_add_int_slider`).
    IntSlider { min: i32, max: i32, step: i32 },
    /// A file or directory picker (`obs_properties_add_path`).
    Path { typ: PathType, filter: Option<String>, default_path: Option<String> },
    /// An editable list (`obs_properties_add_editable_list`).
    EditableList {
        typ: EditableListType,
        filter: Option<String>,
        default_path: Option<String>,
    },
    /// A list or combo box (`obs_properties_add_list`) with its entries.
    List { combo_type: ComboType, format: ComboFormat, items: Vec<ListItem> },
}

/// The underlying value of a list entry.
#[derive(Debug, Clone, PartialEq, Eq)]
pub enum ListValue {
    /// An integer entry (`OBS_COMBO_FORMAT_INT`).
    Int(i64),
    /// A string entry (`OBS_COMBO_FORMAT_STRING`).
    Text(String),
}

/// One entry of a list property.
#[derive(Debug)]
pub struct ListItem {
    /// The label shown for the entry.
    pub name: String,
    /// The value stored when the entry is picked.
    pub value: ListValue,
    /// Whether the entry is greyed out.
    pub disabled: bool,
}

/// A type that can be the underlying value of a [`ListProp`] entry.
///
/// Implemented for [`String`] and [`i64`]; floating-point entries are
/// handled outside the library.
pub trait ListType: Sized {
    /// The [`ComboFormat`] of lists holding this type.
    spec fn spec_format() -> ComboFormat;

    /// The entry value `self` becomes.
    spec fn spec_value(self) -> ListValue;

    /// Returns the [`ComboFormat`] of lists holding this type.
    fn format() -> (r: ComboFormat)
        ensures
            r == Self::spec_format(),
    ;

    /// The entry value `self` becomes.
    fn into_value(self) -> (r: ListValue)
        ensures
            r == self.spec_value(),
    ;
}

impl ListType for String {
    open spec fn spec_format() -> ComboFormat {
        ComboFormat::String
    }

    open spec fn spec_value(self) -> ListValue {
        ListValue::Text(self)
    }

    fn format() -> (r: ComboFormat) {
        ComboFormat::String
    }

    fn into_value(self) -> (r: ListValue) {
        ListValue::Text(self)
    }
}

impl ListType for i64 {
    open spec fn spec_format() -> ComboFormat {
        ComboFormat::Int
    }

    open spec fn spec_value(self) -> ListValue {
        ListValue::Int(self)
    }

    fn format() -> (r: ComboFormat) {
        ComboFormat::Int
    }

    fn into_value(self) -> (r: ListValue) {
        ListValue::Int(self)
    }
}

/// A handle for populating the entries of a list (combo box) property.
///
/// Returned from [`Properties::add_list`]; it borrows the entries of the
/// property it was added as, so what is pushed, inserted, removed or
/// disabled through it is what the property holds.
pub struct ListProp<'props, T> {
    /// The entries of the list, in order.
    pub items: &'props mut Vec<ListItem>,
    /// The type of the entries' values.
    pub value_type: PhantomData<T>,
}

impl<'props, T: ListType> ListProp<'props, T> {
    /// Appends an entry with display label `name` and underlying `value`.
    pub fn push(&mut self, name: &str, value: T)
        ensures
            final(self).items@ == old(self).items@.push(
                ListItem { name: final(self).items@.last().name, value: value.spec_value(), disabled: false },
            ),
            final(self).items@.last().name@ == name@,
            *final(final(self).items) == *final(old(self).items),
    {
        let item = ListItem { name: String::from_str(name), value: value.into_value(), disabled: false };
        self.items.push(item);
    }

    /// Inserts an entry at `index`, shifting later entries down.
    pub fn insert(&mut self, index: usize, name: &str, value: T)
        requires
            index <= old(self).items@.len(),
        ensures
            final(self).items@ == old(self).items@.insert(
                index as int,
                ListItem { name: final(self).items@[index as int].name, value: value.spec_value(), disabled: false },
            ),
            final(self).items@[index as int].name@ == name@,
            *final(final(self).items) == *final(old(self).items),
    {
        let item = ListItem { name: String::from_str(name), value: value.into_value(), disabled: false };
        self.items.insert(index, item);
    }

    /// Removes the entry at `index`; an index past the end changes nothing.
    pub fn remove(&mut self, index: usize)
        ensures
            final(self).items@ == if index < old(self).items@.len() {
                old(self).items@.remove(index as int)
            } else {
                old(self).items@
            },
            *final(final(self).items) == *final(old(self).items),
    {
        if index < self.items.len() {
            self.items.remove(index);
        }
    }

    /// Greys out (or re-enables) the entry at `index` so it cannot be
    /// selected; an index past the end changes nothing.
    pub fn disable(&mut self, index: usize, disabled: bool)
        ensures
            final(self).items@.len() == old(self).items@.len(),
            forall|i: int|
                0 <= i < old(self).items@.len() ==> #[trigger] final(self).items@[i] == if i
                    == index {
                    ListItem { disabled, ..old(self).items@[i] }
                } else {
                    old(self).items@[i]
                },
            *final(final(self).items) == *final(old(self).items),
    {
        if index < self.items.len() {
            self.items[index].disabled = disabled;
        }
    }
}

/// A type that can be added to a [`Properties`] tree: it says which kind
/// of field it becomes, and when it can be added.
pub trait ObsProp: Sized {
    /// Whether the property can be handed to libobs.
    spec fn spec_can_add(&self) -> bool;

    /// The field the property becomes.
    spec fn spec_kind(&self) -> PropertyKind;

    /// The field the property becomes.
    fn into_kind(self) -> (r: PropertyKind)
        requires
            self.spec_can_add(),
        ensures
            r == self.spec_kind(),
    ;
}

impl<T: PropInt> ObsProp for NumberProp<T> {
    open spec fn spec_can_add(&self) -> bool {
        &&& i32::MIN <= self.spec_min() <= i32::MAX
        &&& i32::MIN <= self.spec_max() <= i32::MAX
        &&& i32::MIN <= self.spec_step() <= i32::MAX
    }

    open spec fn spec_kind(&self) -> PropertyKind {
        if self.spec_slider() {
            PropertyKind::IntSlider {
                min: self.spec_min() as i32,
                max: self.spec_max() as i32,
                step: self.spec_step() as i32,
            }
        } else {
            PropertyKind::Int {
                min: self.spec_min() as i32,
                max: self.spec_max() as i32,
                step: self.spec_step() as i32,
            }
        }
    }

    fn into_kind(self) -> (r: PropertyKind) {
        let min = self.min.to_c_int().unwrap();
        let max = self.max.to_c_int().unwrap();
        let step = self.step.to_c_int().unwrap();
        if self.slider {
            PropertyKind::IntSlider { min, max, step }
        } else {
            PropertyKind::Int { min, max, step }
        }
    }
}

/// A boolean checkbox property.
pub struct BoolProp;

impl ObsProp for BoolProp {
    open spec fn spec_can_add(&self) -> bool {
        true
    }

    open spec fn spec_kind(&self) -> PropertyKind {
        PropertyKind::Bool
    }

    fn into_kind(self) -> (r: PropertyKind) {
        PropertyKind::Bool
    }
}

/// A text-input property — single-line, password-masked, or multiline.
pub struct TextProp {
    typ: TextType,
}

impl TextProp {
    /// How the text is edited.
    pub closed spec fn spec_typ(&self) -> TextType {
        self.typ
    }

    /// Creates a text property of the given `typ`.
    pub fn new(typ: TextType) -> (r: Self)
        ensures
            r.spec_typ() == typ,
    {
        Self { typ }
    }
}

impl ObsProp for TextProp {
    open spec fn spec_can_add(&self) -> bool {
        true
    }

    open spec fn spec_kind(&self) -> PropertyKind {
        PropertyKind::Text(self.spec_typ())
    }

    fn into_kind(self) -> (r: PropertyKind) {
        PropertyKind::Text(self.typ)
    }
}

/// A color-picker property.
pub struct ColorProp;

impl ObsProp for ColorProp {
    open spec fn spec_can_add(&self) -> bool {
        true
    }

    open spec fn spec_kind(&self) -> PropertyKind {
        PropertyKind::Color
    }

    fn into_kind(self) -> (r: PropertyKind) {
        PropertyKind::Color
    }
}

/// A font-selection property.
///
/// The selected value is stored as a nested settings object with the
/// fields `face` (string), `style` (string), `size` (integer, points) and
/// `flags` (integer, `OBS_FONT_*` bits).
pub struct FontProp;

impl ObsProp for FontProp {
    open spec fn spec_can_add(&self) -> bool {
        true
    }

    open spec fn spec_kind(&self) -> PropertyKind {
        PropertyKind::Font
    }

    fn into_kind(self) -> (r: PropertyKind) {
        PropertyKind::Font
    }
}

/// A file or directory picker property.
///
/// File pickers may carry a filter expression in OBS's native syntax, in
/// which file-type groups are separated by double semicolons and
/// extensions inside a group are separated by spaces, e.g.
/// `"Example types 1 and 2 (*.ex1 *.ex2);;Example type 3 (*.ex3)"`.
pub struct PathProp {
    typ: PathType,
    filter: Option<String>,
    default_path: Option<String>,
}

impl PathProp {
    /// What the picker picks.
    pub closed spec fn spec_typ(&self) -> PathType {
        self.typ
    }

    /// The filter expression, if any.
    pub closed spec fn spec_filter(&self) -> Option<String> {
        self.filter
    }

    /// The directory the picker opens in, if any.
    pub closed spec fn spec_default_path(&self) -> Option<String> {
        self.default_path
    }

    /// Creates a new path property of the given `typ`.
    pub fn new(typ: PathType) -> (r: Self)
        ensures
            r.spec_typ() == typ,
            r.spec_filter() is None,
            r.spec_default_path() is None,
    {
        Self { typ, filter: None, default_path: None }
    }

    /// Sets the file-type filter for file pickers. Has no visible effect
    /// for directory pickers.
    pub fn with_filter(self, f: &str) -> (r: Self)
        ensures
            r.spec_typ() == self.spec_typ(),
            r.spec_filter() matches Some(s) && s@ == f@,
            r.spec_default_path() == self.spec_default_path(),
    {
        PathProp { filter: Some(String::from_str(f)), ..self }
    }

    /// Sets the directory the picker opens to by default.
    pub fn with_default_path(self, d: &str) -> (r: Self)
        ensures
            r.spec_typ() == self.spec_typ(),
            r.spec_filter() == self.spec_filter(),
            r.spec_default_path() matches Some(s) && s@ == d@,
    {
        PathProp { default_path: Some(String::from_str(d)), ..self }
    }
}

impl ObsProp for PathProp {
    open spec fn spec_can_add(&self) -> bool {
        true
    }

    open spec fn spec_kind(&self) -> PropertyKind {
        PropertyKind::Path {
            typ: self.spec_typ(),
            filter: self.spec_filter(),
            default_path: self.spec_default_path(),
        }
    }

    fn into_kind(self) -> (r: PropertyKind) {
        PropertyKind::Path { typ: self.typ, filter: self.filter, default_path: self.default_path }
    }
}

/// An editable list property (a user-managed list of strings, files, or
/// URLs).
pub struct EditableListProp {
    typ: EditableListType,
    filter: Option<String>,
    default_path: Option<String>,
}

impl EditableListProp {
    /// What the list holds.
    pub closed spec fn spec_typ(&self) -> EditableListType {
        self.typ
    }

    /// The filter expression, if any.
    pub closed spec fn spec_filter(&self) -> Option<String> {
        self.filter
    }

    /// The directory the picker opens in, if any.
    pub closed spec fn spec_default_path(&self) -> Option<String> {
        self.default_path
    }

    /// Creates a new editable-list property of the given `typ`.
    pub fn new(typ: EditableListType) -> (r: Self)
        ensures
            r.spec_typ() == typ,
            r.spec_filter() is None,
            r.spec_default_path() is None,
    {
        Self { typ, filter: None, default_path: None }
    }

    /// Sets the file-type filter, in OBS's native filter syntax.
    pub fn with_filter(self, f: &str) -> (r: Self)
        ensures
            r.spec_typ() == self.spec_typ(),
            r.spec_filter() matches Some(s) && s@ == f@,
            r.spec_default_path() == self.spec_default_path(),
    {
        EditableListProp { filter: Some(String::from_str(f)), ..self }
    }

    /// Sets the directory the picker opens to by default.
    pub fn with_default_path(self, d: &str) -> (r: Self)
        ensures
            r.spec_typ() == self.spec_typ(),
            r.spec_filter() == self.spec_filter(),
            r.spec_default_path() matches Some(s) && s@ == d@,
    {
        EditableListProp { default_path: Some(String::from_str(d)), ..self }
    }
}

impl ObsProp for EditableListProp {
    open spec fn spec_can_add(&self) -> bool {
        true
    }

    open spec fn spec_kind(&self) -> PropertyKind {
        PropertyKind::EditableList {
            typ: self.spec_typ(),
            filter: self.spec_filter(),
            default_path: self.spec_default_path(),
        }
    }

    fn into_kind(self) -> (r: PropertyKind) {
        PropertyKind::EditableList {
            typ: self.typ,
            filter: self.filter,
            default_path: self.default_path,
        }
    }
}

/// One field of a settings panel: its key, its localized description,
/// and its kind.
#[derive(Debug)]
pub struct Property {
    /// The settings key the field edits.
    pub name: String,
    /// The label shown beside the field.
    pub description: String,
    /// What the field is.
    pub kind: PropertyKind,
}

/// The fields of a settings panel, in the order they are added.
pub struct Properties {
    props: Vec<Property>,
}

impl Properties {
    /// The fields, in order.
    pub closed spec fn view(&self) -> Seq<Property> {
        self.props@
    }

    /// Creates a new, empty property tree.
    pub fn new() -> (r: Self)
        ensures
            r@ == Seq::<Property>::empty(),
    {
        Properties { props: Vec::new() }
    }

    /// Adds a single property with key `name` and a localized
    /// `description` shown alongside the field.
    pub fn add<T: ObsProp>(&mut self, name: &str, description: &str, prop: T) -> (r: &mut Self)
        requires
            prop.spec_can_add(),
        ensures
            final(self)@ == final(r)@,
            r@.len() == old(self)@.len() + 1,
            r@.subrange(0, old(self)@.len() as int) == old(self)@,
            r@.last().name@ == name@,
            r@.last().description@ == description@,
            r@.last().kind == prop.spec_kind(),
    {
        let kind = prop.into_kind();
        self.props.push(
            Property {
                name: String::from_str(name),
                description: String::from_str(description),
                kind,
            },
        );
        proof {
            assert(self.props@.subrange(0, old(self)@.len() as int) =~= old(self)@);
        }
        self
    }

    /// Adds a list (combo box) property and returns a [`ListProp`] handle
    /// for populating its entries.
    ///
    /// When `editable` is true the user can also type free-form values;
    /// otherwise the list is restricted to the entries added through the
    /// handle. The property holds exactly the entries the handle leaves.
    pub fn add_list<T: ListType>(&mut self, name: &str, description: &str, editable: bool) -> (r:
        ListProp<'_, T>)
        ensures
            r.items@ == Seq::<ListItem>::empty(),
            final(self)@.len() == old(self)@.len() + 1,
            final(self)@.drop_last() == old(self)@,
            final(self)@.last().name@ == name@,
            final(self)@.last().description@ == description@,
            final(self)@.last().kind == (PropertyKind::List {
                combo_type: if editable {
                    ComboType::Editable
                } else {
                    ComboType::List
                },
                format: T::spec_format(),
                items: *final(r.items),
            }),
    {
        let combo_type = if editable {
            ComboType::Editable
        } else {
            ComboType::List
        };
        self.props.push(
            Property {
                name: String::from_str(name),
                description: String::from_str(description),
                kind: PropertyKind::List { combo_type, format: T::format(), items: Vec::new() },
            },
        );
        let last = self.props.len() - 1;
        match &mut self.props[last].kind {
            PropertyKind::List { items, .. } => ListProp { items, value_type: PhantomData },
            _ => vstd::pervasive::unreached(),
        }
    }

    /// The number of fields.
    pub fn len(&self) -> (r: usize)
        ensures
            r == self@.len(),
    {
        self.props.len()
    }

    /// The field at `index`.
    pub fn get(&self, index: usize) -> (r: &Property)
        requires
            index < self@.len(),
        ensures
            *r == self@[index as int],
    {
        &self.props[index]
    }
}

impl Default for Properties {
    fn default() -> (r: Self)
        ensures
            r@ == Seq::<Property>::empty(),
    {
        Properties::new()
    }
}

/// Each value's libobs enumerant, as libobs numbers them, and the value each of those
/// enumerants stands for.
pub proof fn lemma_text_type_numbering()
    ensures
        TextType::Default.spec_raw() == 0,
        TextType::spec_from_raw(0) == Some(TextType::Default),
        TextType::Password.spec_raw() == 1,
        TextType::spec_from_raw(1) == Some(TextType::Password),
        TextType::Multiline.spec_raw() == 2,
        TextType::spec_from_raw(2) == Some(TextType::Multiline),
{
}

/// Each value's libobs enumerant, as libobs numbers them, and the value each of those
/// enumerants stands for.
pub proof fn lemma_path_type_numbering()
    ensures
        PathType::File.spec_raw() == 0,
        PathType::spec_from_raw(0) == Some(PathType::File),
        PathType::FileSave.spec_raw() == 1,
        PathType::spec_from_raw(1) == Some(PathType::FileSave),
        PathType::Directory.spec_raw() == 2,
        PathType::spec_from_raw(2) == Some(PathType::Directory),
{
}

/// Each value's libobs enumerant, as libobs numbers them, and the value each of those
/// enumerants stands for.
pub proof fn lemma_combo_format_numbering()
    ensures
        ComboFormat::Invalid.spec_raw() == 0,
        ComboFormat::spec_from_raw(0) == Some(ComboFormat::Invalid),
        ComboFormat::Int.spec_raw() == 1,
        ComboFormat::spec_from_raw(1) == Some(ComboFormat::Int),
        ComboFormat::Float.spec_raw() == 2,
        ComboFormat::spec_from_raw(2) == Some(ComboFormat::Float),
        ComboFormat::String.spec_raw() == 3,
        ComboFormat::spec_from_raw(3) == Some(ComboFormat::String),
{
}

/// Each value's libobs enumerant, as libobs numbers them, and the value each of those
/// enumerants stands for.
pub proof fn lemma_combo_type_numbering()
    ensures
        ComboType::Invalid.spec_raw() == 0,
        ComboType::spec_from_raw(0) == Some(ComboType::Invalid),
        ComboType::Editable.spec_raw() == 1,
        ComboType::spec_from_raw(1) == Some(ComboType::Editable),
        ComboType::List.spec_raw() == 2,
        ComboType::spec_from_raw(2) == Some(ComboType::List),
{
}

/// Each value's libobs enumerant, as libobs numbers them, and the value each of those
/// enumerants stands for.
pub proof fn lemma_editable_list_type_numbering()
    ensures
        EditableListType::Strings.spec_raw() == 0,
        EditableListType::spec_from_raw(0) == Some(EditableListType::Strings),
        EditableListType::Files.spec_raw() == 1,
        EditableListType::spec_from_raw(1) == Some(EditableListType::Files),
        EditableListType::FilesAndUrls.spec_raw() == 2,
        EditableListType::spec_from_raw(2) == Some(EditableListType::FilesAndUrls),
{
}

/// The field a number property becomes carries the property's minimum,
/// maximum and step whatever its presentation; the slider setting only
/// chooses between a spin box and a slider.
pub proof fn lemma_number_prop_kind<T: PropInt>(p: NumberProp<T>)
    requires
        p.spec_can_add(),
    ensures
        match p.spec_kind() {
            PropertyKind::Int { min, max, step } => !p.spec_slider() && min == p.spec_min() && max
                == p.spec_max() && step == p.spec_step(),
            PropertyKind::IntSlider { min, max, step } => p.spec_slider() && min == p.spec_min()
                && max == p.spec_max() && step == p.spec_step(),
            _ => false,
        },
{
}

/// The field each kind of property becomes: checkboxes, color and font
/// pickers stand alone; text, path and editable-list fields carry the
/// property's own settings.
pub proof fn lemma_prop_kinds(
    b: BoolProp,
    c: ColorProp,
    f: FontProp,
    t: TextProp,
    p: PathProp,
    e: EditableListProp,
)
    ensures
        b.spec_kind() == PropertyKind::Bool,
        c.spec_kind() == PropertyKind::Color,
        f.spec_kind() == PropertyKind::Font,
        t.spec_kind() == PropertyKind::Text(t.spec_typ()),
        p.spec_kind() == (PropertyKind::Path {
            typ: p.spec_typ(),
            filter: p.spec_filter(),
            default_path: p.spec_default_path(),
        }),
        e.spec_kind() == (PropertyKind::EditableList {
            typ: e.spec_typ(),
            filter: e.spec_filter(),
            default_path: e.spec_default_path(),
        }),
        b.spec_can_add() && c.spec_can_add() && f.spec_can_add() && t.spec_can_add()
            && p.spec_can_add() && e.spec_can_add(),
{
}

} // verus!
