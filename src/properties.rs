//! The property registry: every property a node can carry, grouped by the
//! shape of its value, and the property set that nodes and builders hold.

use crate::ids::NodeId;
use crate::table::{items_of, PropertyTable};
use crate::text::{CustomAction, TextSelection};
use vstd::prelude::*;

verus! {
/// The number of properties of type `FlagProperty`.
pub const FLAG_COUNT: usize = 30;

/// Properties whose values are on/off flags.
#[derive(Clone, Copy, Debug, PartialEq, Eq, Structural)]
pub enum FlagProperty {
    AutofillAvailable,
    Default,
    Editable,
    Hovered,
    Hidden,
    Linked,
    Multiline,
    Multiselectable,
    Protected,
    Required,
    Visited,
    Busy,
    LiveAtomic,
    Modal,
    Scrollable,
    SelectedFromFocus,
    TouchPassThrough,
    ReadOnly,
    Disabled,
    Bold,
    Italic,
    CanvasHasFallback,
    ClipsChildren,
    IsLineBreakingObject,
    IsPageBreakingObject,
    IsSpellingError,
    IsGrammarError,
    IsSearchMatch,
    IsSuggestion,
    IsNonatomicTextFieldRoot,
}

impl FlagProperty {
    /// The property's slot in its table.
    pub open spec fn spec_index(self) -> int {
        match self {
            FlagProperty::AutofillAvailable => 0,
            FlagProperty::Default => 1,
            FlagProperty::Editable => 2,
            FlagProperty::Hovered => 3,
            FlagProperty::Hidden => 4,
            FlagProperty::Linked => 5,
            FlagProperty::Multiline => 6,
            FlagProperty::Multiselectable => 7,
            FlagProperty::Protected => 8,
            FlagProperty::Required => 9,
            FlagProperty::Visited => 10,
            FlagProperty::Busy => 11,
            FlagProperty::LiveAtomic => 12,
            FlagProperty::Modal => 13,
            FlagProperty::Scrollable => 14,
            FlagProperty::SelectedFromFocus => 15,
            FlagProperty::TouchPassThrough => 16,
            FlagProperty::ReadOnly => 17,
            FlagProperty::Disabled => 18,
            FlagProperty::Bold => 19,
            FlagProperty::Italic => 20,
            FlagProperty::CanvasHasFallback => 21,
            FlagProperty::ClipsChildren => 22,
            FlagProperty::IsLineBreakingObject => 23,
            FlagProperty::IsPageBreakingObject => 24,
            FlagProperty::IsSpellingError => 25,
            FlagProperty::IsGrammarError => 26,
            FlagProperty::IsSearchMatch => 27,
            FlagProperty::IsSuggestion => 28,
            FlagProperty::IsNonatomicTextFieldRoot => 29,
        }
    }

    pub fn index(&self) -> (r: usize)
        ensures
            r == self.spec_index(),
            r < FLAG_COUNT,
    {
        match self {
            FlagProperty::AutofillAvailable => 0,
            FlagProperty::Default => 1,
            FlagProperty::Editable => 2,
            FlagProperty::Hovered => 3,
            FlagProperty::Hidden => 4,
            FlagProperty::Linked => 5,
            FlagProperty::Multiline => 6,
            FlagProperty::Multiselectable => 7,
            FlagProperty::Protected => 8,
            FlagProperty::Required => 9,
            FlagProperty::Visited => 10,
            FlagProperty::Busy => 11,
            FlagProperty::LiveAtomic => 12,
            FlagProperty::Modal => 13,
            FlagProperty::Scrollable => 14,
            FlagProperty::SelectedFromFocus => 15,
            FlagProperty::TouchPassThrough => 16,
            FlagProperty::ReadOnly => 17,
            FlagProperty::Disabled => 18,
            FlagProperty::Bold => 19,
            FlagProperty::Italic => 20,
            FlagProperty::CanvasHasFallback => 21,
            FlagProperty::ClipsChildren => 22,
            FlagProperty::IsLineBreakingObject => 23,
            FlagProperty::IsPageBreakingObject => 24,
            FlagProperty::IsSpellingError => 25,
            FlagProperty::IsGrammarError => 26,
            FlagProperty::IsSearchMatch => 27,
            FlagProperty::IsSuggestion => 28,
            FlagProperty::IsNonatomicTextFieldRoot => 29,
        }
    }
}
/// The number of properties of type `NodeIdVecProperty`.
pub const NODE_ID_VEC_COUNT: usize = 8;

/// Properties whose values are sequences of node references.
#[derive(Clone, Copy, Debug, PartialEq, Eq, Structural)]
pub enum NodeIdVecProperty {
    Children,
    IndirectChildren,
    Controls,
    Details,
    DescribedBy,
    FlowTo,
    LabelledBy,
    RadioGroup,
}

impl NodeIdVecProperty {
    /// The property's slot in its table.
    pub open spec fn spec_index(self) -> int {
        match self {
            NodeIdVecProperty::Children => 0,
            NodeIdVecProperty::IndirectChildren => 1,
            NodeIdVecProperty::Controls => 2,
            NodeIdVecProperty::Details => 3,
            NodeIdVecProperty::DescribedBy => 4,
            NodeIdVecProperty::FlowTo => 5,
            NodeIdVecProperty::LabelledBy => 6,
            NodeIdVecProperty::RadioGroup => 7,
        }
    }

    pub fn index(&self) -> (r: usize)
        ensures
            r == self.spec_index(),
            r < NODE_ID_VEC_COUNT,
    {
        match self {
            NodeIdVecProperty::Children => 0,
            NodeIdVecProperty::IndirectChildren => 1,
            NodeIdVecProperty::Controls => 2,
            NodeIdVecProperty::Details => 3,
            NodeIdVecProperty::DescribedBy => 4,
            NodeIdVecProperty::FlowTo => 5,
            NodeIdVecProperty::LabelledBy => 6,
            NodeIdVecProperty::RadioGroup => 7,
        }
    }
}
/// The number of properties of type `NodeIdProperty`.
pub const NODE_ID_COUNT: usize = 12;

/// Properties whose values are single node references.
#[derive(Clone, Copy, Debug, PartialEq, Eq, Structural)]
pub enum NodeIdProperty {
    ActiveDescendant,
    ErrorMessage,
    InPageLinkTarget,
    MemberOf,
    NextOnLine,
    PreviousOnLine,
    PopupFor,
    TableHeader,
    TableRowHeader,
    TableColumnHeader,
    NextFocus,
    PreviousFocus,
}

impl NodeIdProperty {
    /// The property's slot in its table.
    pub open spec fn spec_index(self) -> int {
        match self {
            NodeIdProperty::ActiveDescendant => 0,
            NodeIdProperty::ErrorMessage => 1,
            NodeIdProperty::InPageLinkTarget => 2,
            NodeIdProperty::MemberOf => 3,
            NodeIdProperty::NextOnLine => 4,
            NodeIdProperty::PreviousOnLine => 5,
            NodeIdProperty::PopupFor => 6,
            NodeIdProperty::TableHeader => 7,
            NodeIdProperty::TableRowHeader => 8,
            NodeIdProperty::TableColumnHeader => 9,
            NodeIdProperty::NextFocus => 10,
            NodeIdProperty::PreviousFocus => 11,
        }
    }

    pub fn index(&self) -> (r: usize)
        ensures
            r == self.spec_index(),
            r < NODE_ID_COUNT,
    {
        match self {
            NodeIdProperty::ActiveDescendant => 0,
            NodeIdProperty::ErrorMessage => 1,
            NodeIdProperty::InPageLinkTarget => 2,
            NodeIdProperty::MemberOf => 3,
            NodeIdProperty::NextOnLine => 4,
            NodeIdProperty::PreviousOnLine => 5,
            NodeIdProperty::PopupFor => 6,
            NodeIdProperty::TableHeader => 7,
            NodeIdProperty::TableRowHeader => 8,
            NodeIdProperty::TableColumnHeader => 9,
            NodeIdProperty::NextFocus => 10,
            NodeIdProperty::PreviousFocus => 11,
        }
    }
}
/// The number of properties of type `StringProperty`.
pub const STRING_COUNT: usize = 20;

/// Properties whose values are strings.
#[derive(Clone, Copy, Debug, PartialEq, Eq, Structural)]
pub enum StringProperty {
    Name,
    Description,
    Value,
    AccessKey,
    AutoComplete,
    CheckedStateDescription,
    ClassName,
    CssDisplay,
    FontFamily,
    HtmlTag,
    InnerHtml,
    InputType,
    KeyShortcuts,
    Language,
    LiveRelevant,
    Placeholder,
    AriaRole,
    RoleDescription,
    Tooltip,
    Url,
}

impl StringProperty {
    /// The property's slot in its table.
    pub open spec fn spec_index(self) -> int {
        match self {
            StringProperty::Name => 0,
            StringProperty::Description => 1,
            StringProperty::Value => 2,
            StringProperty::AccessKey => 3,
            StringProperty::AutoComplete => 4,
            StringProperty::CheckedStateDescription => 5,
            StringProperty::ClassName => 6,
            StringProperty::CssDisplay => 7,
            StringProperty::FontFamily => 8,
            StringProperty::HtmlTag => 9,
            StringProperty::InnerHtml => 10,
            StringProperty::InputType => 11,
            StringProperty::KeyShortcuts => 12,
            StringProperty::Language => 13,
            StringProperty::LiveRelevant => 14,
            StringProperty::Placeholder => 15,
            StringProperty::AriaRole => 16,
            StringProperty::RoleDescription => 17,
            StringProperty::Tooltip => 18,
            StringProperty::Url => 19,
        }
    }

    pub fn index(&self) -> (r: usize)
        ensures
            r == self.spec_index(),
            r < STRING_COUNT,
    {
        match self {
            StringProperty::Name => 0,
            StringProperty::Description => 1,
            StringProperty::Value => 2,
            StringProperty::AccessKey => 3,
            StringProperty::AutoComplete => 4,
            StringProperty::CheckedStateDescription => 5,
            StringProperty::ClassName => 6,
            StringProperty::CssDisplay => 7,
            StringProperty::FontFamily => 8,
            StringProperty::HtmlTag => 9,
            StringProperty::InnerHtml => 10,
            StringProperty::InputType => 11,
            StringProperty::KeyShortcuts => 12,
            StringProperty::Language => 13,
            StringProperty::LiveRelevant => 14,
            StringProperty::Placeholder => 15,
            StringProperty::AriaRole => 16,
            StringProperty::RoleDescription => 17,
            StringProperty::Tooltip => 18,
            StringProperty::Url => 19,
        }
    }
}
/// The number of properties of type `NumberProperty`.
pub const NUMBER_COUNT: usize = 14;

/// Properties whose values are double-precision numbers, held as their IEEE 754 bit patterns.
#[derive(Clone, Copy, Debug, PartialEq, Eq, Structural)]
pub enum NumberProperty {
    ScrollX,
    ScrollXMin,
    ScrollXMax,
    ScrollY,
    ScrollYMin,
    ScrollYMax,
    NumericValue,
    MinNumericValue,
    MaxNumericValue,
    NumericValueStep,
    NumericValueJump,
    FontSize,
    FontWeight,
    TextIndent,
}

impl NumberProperty {
    /// The property's slot in its table.
    pub open spec fn spec_index(self) -> int {
        match self {
            NumberProperty::ScrollX => 0,
            NumberProperty::ScrollXMin => 1,
            NumberProperty::ScrollXMax => 2,
            NumberProperty::ScrollY => 3,
            NumberProperty::ScrollYMin => 4,
            NumberProperty::ScrollYMax => 5,
            NumberProperty::NumericValue => 6,
            NumberProperty::MinNumericValue => 7,
            NumberProperty::MaxNumericValue => 8,
            NumberProperty::NumericValueStep => 9,
            NumberProperty::NumericValueJump => 10,
            NumberProperty::FontSize => 11,
            NumberProperty::FontWeight => 12,
            NumberProperty::TextIndent => 13,
        }
    }

    pub fn index(&self) -> (r: usize)
        ensures
            r == self.spec_index(),
            r < NUMBER_COUNT,
    {
        match self {
            NumberProperty::ScrollX => 0,
            NumberProperty::ScrollXMin => 1,
            NumberProperty::ScrollXMax => 2,
            NumberProperty::ScrollY => 3,
            NumberProperty::ScrollYMin => 4,
            NumberProperty::ScrollYMax => 5,
            NumberProperty::NumericValue => 6,
            NumberProperty::MinNumericValue => 7,
            NumberProperty::MaxNumericValue => 8,
            NumberProperty::NumericValueStep => 9,
            NumberProperty::NumericValueJump => 10,
            NumberProperty::FontSize => 11,
            NumberProperty::FontWeight => 12,
            NumberProperty::TextIndent => 13,
        }
    }
}
/// The number of properties of type `IndexProperty`.
pub const INDEX_COUNT: usize = 11;

/// Properties whose values are counts and indices.
#[derive(Clone, Copy, Debug, PartialEq, Eq, Structural)]
pub enum IndexProperty {
    TableRowCount,
    TableColumnCount,
    TableRowIndex,
    TableColumnIndex,
    TableCellColumnIndex,
    TableCellColumnSpan,
    TableCellRowIndex,
    TableCellRowSpan,
    HierarchicalLevel,
    SizeOfSet,
    PositionInSet,
}

impl IndexProperty {
    /// The property's slot in its table.
    pub open spec fn spec_index(self) -> int {
        match self {
            IndexProperty::TableRowCount => 0,
            IndexProperty::TableColumnCount => 1,
            IndexProperty::TableRowIndex => 2,
            IndexProperty::TableColumnIndex => 3,
            IndexProperty::TableCellColumnIndex => 4,
            IndexProperty::TableCellColumnSpan => 5,
            IndexProperty::TableCellRowIndex => 6,
            IndexProperty::TableCellRowSpan => 7,
            IndexProperty::HierarchicalLevel => 8,
            IndexProperty::SizeOfSet => 9,
            IndexProperty::PositionInSet => 10,
        }
    }

    pub fn index(&self) -> (r: usize)
        ensures
            r == self.spec_index(),
            r < INDEX_COUNT,
    {
        match self {
            IndexProperty::TableRowCount => 0,
            IndexProperty::TableColumnCount => 1,
            IndexProperty::TableRowIndex => 2,
            IndexProperty::TableColumnIndex => 3,
            IndexProperty::TableCellColumnIndex => 4,
            IndexProperty::TableCellColumnSpan => 5,
            IndexProperty::TableCellRowIndex => 6,
            IndexProperty::TableCellRowSpan => 7,
            IndexProperty::HierarchicalLevel => 8,
            IndexProperty::SizeOfSet => 9,
            IndexProperty::PositionInSet => 10,
        }
    }
}
/// The number of properties of type `ColorProperty`.
pub const COLOR_COUNT: usize = 3;

/// Properties whose values are colors, as 32-bit values.
#[derive(Clone, Copy, Debug, PartialEq, Eq, Structural)]
pub enum ColorProperty {
    ColorValue,
    BackgroundColor,
    ForegroundColor,
}

impl ColorProperty {
    /// The property's slot in its table.
    pub open spec fn spec_index(self) -> int {
        match self {
            ColorProperty::ColorValue => 0,
            ColorProperty::BackgroundColor => 1,
            ColorProperty::ForegroundColor => 2,
        }
    }

    pub fn index(&self) -> (r: usize)
        ensures
            r == self.spec_index(),
            r < COLOR_COUNT,
    {
        match self {
            ColorProperty::ColorValue => 0,
            ColorProperty::BackgroundColor => 1,
            ColorProperty::ForegroundColor => 2,
        }
    }
}
/// The number of properties of type `DecorationProperty`.
pub const DECORATION_COUNT: usize = 3;

/// Properties whose values are text decorations.
#[derive(Clone, Copy, Debug, PartialEq, Eq, Structural)]
pub enum DecorationProperty {
    Overline,
    Strikethrough,
    Underline,
}

impl DecorationProperty {
    /// The property's slot in its table.
    pub open spec fn spec_index(self) -> int {
        match self {
            DecorationProperty::Overline => 0,
            DecorationProperty::Strikethrough => 1,
            DecorationProperty::Underline => 2,
        }
    }

    pub fn index(&self) -> (r: usize)
        ensures
            r == self.spec_index(),
            r < DECORATION_COUNT,
    {
        match self {
            DecorationProperty::Overline => 0,
            DecorationProperty::Strikethrough => 1,
            DecorationProperty::Underline => 2,
        }
    }
}
/// The number of properties of type `LengthsProperty`.
pub const LENGTHS_COUNT: usize = 2;

/// Properties whose values are runs of lengths.
#[derive(Clone, Copy, Debug, PartialEq, Eq, Structural)]
pub enum LengthsProperty {
    CharacterLengths,
    WordLengths,
}

impl LengthsProperty {
    /// The property's slot in its table.
    pub open spec fn spec_index(self) -> int {
        match self {
            LengthsProperty::CharacterLengths => 0,
            LengthsProperty::WordLengths => 1,
        }
    }

    pub fn index(&self) -> (r: usize)
        ensures
            r == self.spec_index(),
            r < LENGTHS_COUNT,
    {
        match self {
            LengthsProperty::CharacterLengths => 0,
            LengthsProperty::WordLengths => 1,
        }
    }
}
/// The number of properties of type `CoordsProperty`.
pub const COORDS_COUNT: usize = 2;

/// Properties whose values are sequences of single-precision coordinates, held as their IEEE 754 bit patterns.
#[derive(Clone, Copy, Debug, PartialEq, Eq, Structural)]
pub enum CoordsProperty {
    CharacterPositions,
    CharacterWidths,
}

impl CoordsProperty {
    /// The property's slot in its table.
    pub open spec fn spec_index(self) -> int {
        match self {
            CoordsProperty::CharacterPositions => 0,
            CoordsProperty::CharacterWidths => 1,
        }
    }

    pub fn index(&self) -> (r: usize)
        ensures
            r == self.spec_index(),
            r < COORDS_COUNT,
    {
        match self {
            CoordsProperty::CharacterPositions => 0,
            CoordsProperty::CharacterWidths => 1,
        }
    }
}
/// The number of properties of type `BoolProperty`.
pub const BOOL_COUNT: usize = 2;

/// Properties whose values are tri-state booleans: unset, false or true.
#[derive(Clone, Copy, Debug, PartialEq, Eq, Structural)]
pub enum BoolProperty {
    Expanded,
    Selected,
}

impl BoolProperty {
    /// The property's slot in its table.
    pub open spec fn spec_index(self) -> int {
        match self {
            BoolProperty::Expanded => 0,
            BoolProperty::Selected => 1,
        }
    }

    pub fn index(&self) -> (r: usize)
        ensures
            r == self.spec_index(),
            r < BOOL_COUNT,
    {
        match self {
            BoolProperty::Expanded => 0,
            BoolProperty::Selected => 1,
        }
    }
}
/// The number of properties of type `EnumProperty`.
pub const ENUM_COUNT: usize = 14;

/// Properties whose values are closed enumerations.
#[derive(Clone, Copy, Debug, PartialEq, Eq, Structural)]
pub enum EnumProperty {
    NameFrom,
    DescriptionFrom,
    Invalid,
    CheckedState,
    Live,
    DefaultActionVerb,
    TextDirection,
    Orientation,
    SortDirection,
    AriaCurrent,
    HasPopup,
    ListStyle,
    TextAlign,
    VerticalOffset,
}

impl EnumProperty {
    /// The property's slot in its table.
    pub open spec fn spec_index(self) -> int {
        match self {
            EnumProperty::NameFrom => 0,
            EnumProperty::DescriptionFrom => 1,
            EnumProperty::Invalid => 2,
            EnumProperty::CheckedState => 3,
            EnumProperty::Live => 4,
            EnumProperty::DefaultActionVerb => 5,
            EnumProperty::TextDirection => 6,
            EnumProperty::Orientation => 7,
            EnumProperty::SortDirection => 8,
            EnumProperty::AriaCurrent => 9,
            EnumProperty::HasPopup => 10,
            EnumProperty::ListStyle => 11,
            EnumProperty::TextAlign => 12,
            EnumProperty::VerticalOffset => 13,
        }
    }

    pub fn index(&self) -> (r: usize)
        ensures
            r == self.spec_index(),
            r < ENUM_COUNT,
    {
        match self {
            EnumProperty::NameFrom => 0,
            EnumProperty::DescriptionFrom => 1,
            EnumProperty::Invalid => 2,
            EnumProperty::CheckedState => 3,
            EnumProperty::Live => 4,
            EnumProperty::DefaultActionVerb => 5,
            EnumProperty::TextDirection => 6,
            EnumProperty::Orientation => 7,
            EnumProperty::SortDirection => 8,
            EnumProperty::AriaCurrent => 9,
            EnumProperty::HasPopup => 10,
            EnumProperty::ListStyle => 11,
            EnumProperty::TextAlign => 12,
            EnumProperty::VerticalOffset => 13,
        }
    }
}
/// The value of a property of type `EnumProperty`; the variant names the property.
#[derive(Clone, Copy, Debug)]
pub enum EnumValue {
    NameFrom(accesskit::NameFrom),
    DescriptionFrom(accesskit::DescriptionFrom),
    Invalid(accesskit::Invalid),
    CheckedState(accesskit::CheckedState),
    Live(accesskit::Live),
    DefaultActionVerb(accesskit::DefaultActionVerb),
    TextDirection(accesskit::TextDirection),
    Orientation(accesskit::Orientation),
    SortDirection(accesskit::SortDirection),
    AriaCurrent(accesskit::AriaCurrent),
    HasPopup(accesskit::HasPopup),
    ListStyle(accesskit::ListStyle),
    TextAlign(accesskit::TextAlign),
    VerticalOffset(accesskit::VerticalOffset),
}

impl EnumValue {
    /// The property that the value belongs to.
    pub open spec fn spec_property(self) -> EnumProperty {
        match self {
            EnumValue::NameFrom(_) => EnumProperty::NameFrom,
            EnumValue::DescriptionFrom(_) => EnumProperty::DescriptionFrom,
            EnumValue::Invalid(_) => EnumProperty::Invalid,
            EnumValue::CheckedState(_) => EnumProperty::CheckedState,
            EnumValue::Live(_) => EnumProperty::Live,
            EnumValue::DefaultActionVerb(_) => EnumProperty::DefaultActionVerb,
            EnumValue::TextDirection(_) => EnumProperty::TextDirection,
            EnumValue::Orientation(_) => EnumProperty::Orientation,
            EnumValue::SortDirection(_) => EnumProperty::SortDirection,
            EnumValue::AriaCurrent(_) => EnumProperty::AriaCurrent,
            EnumValue::HasPopup(_) => EnumProperty::HasPopup,
            EnumValue::ListStyle(_) => EnumProperty::ListStyle,
            EnumValue::TextAlign(_) => EnumProperty::TextAlign,
            EnumValue::VerticalOffset(_) => EnumProperty::VerticalOffset,
        }
    }

    pub fn property(&self) -> (r: EnumProperty)
        ensures
            r == self.spec_property(),
    {
        match self {
            EnumValue::NameFrom(_) => EnumProperty::NameFrom,
            EnumValue::DescriptionFrom(_) => EnumProperty::DescriptionFrom,
            EnumValue::Invalid(_) => EnumProperty::Invalid,
            EnumValue::CheckedState(_) => EnumProperty::CheckedState,
            EnumValue::Live(_) => EnumProperty::Live,
            EnumValue::DefaultActionVerb(_) => EnumProperty::DefaultActionVerb,
            EnumValue::TextDirection(_) => EnumProperty::TextDirection,
            EnumValue::Orientation(_) => EnumProperty::Orientation,
            EnumValue::SortDirection(_) => EnumProperty::SortDirection,
            EnumValue::AriaCurrent(_) => EnumProperty::AriaCurrent,
            EnumValue::HasPopup(_) => EnumProperty::HasPopup,
            EnumValue::ListStyle(_) => EnumProperty::ListStyle,
            EnumValue::TextAlign(_) => EnumProperty::TextAlign,
            EnumValue::VerticalOffset(_) => EnumProperty::VerticalOffset,
        }
    }
}
/// What a property set holds: for each shape, a slot per property in
/// registry order, empty while unset; then the four structured properties.
pub struct PropertiesView {
    pub flags: Seq<Option<()>>,
    pub node_id_vecs: Seq<Option<Vec<NodeId>>>,
    pub node_ids: Seq<Option<NodeId>>,
    pub strings: Seq<Option<String>>,
    pub numbers: Seq<Option<u64>>,
    pub indices: Seq<Option<usize>>,
    pub colors: Seq<Option<u32>>,
    pub decorations: Seq<Option<accesskit::TextDecoration>>,
    pub lengths: Seq<Option<Vec<u8>>>,
    pub coords: Seq<Option<Vec<u32>>>,
    pub bools: Seq<Option<bool>>,
    pub enums: Seq<Option<EnumValue>>,
    pub transform: Option<accesskit::Affine>,
    pub bounds: Option<accesskit::Rect>,
    pub text_selection: Option<TextSelection>,
    pub custom_actions: Option<Seq<(i32, Seq<char>)>>,
}

/// The view of a sequence of custom actions: each one's id and description.
pub open spec fn actions_view(v: Seq<CustomAction>) -> Seq<(i32, Seq<char>)> {
    v.map_values(|a: CustomAction| (a.id, a.description@))
}

/// The view of an optional sequence of custom actions.
pub open spec fn opt_actions_view(v: Option<Vec<CustomAction>>) -> Option<Seq<(i32, Seq<char>)>> {
    match v {
        Some(a) => Some(actions_view(a@)),
        None => None,
    }
}

/// The properties of one node.
pub struct Properties {
    flags: PropertyTable<()>,
    node_id_vecs: PropertyTable<Vec<NodeId>>,
    node_ids: PropertyTable<NodeId>,
    strings: PropertyTable<String>,
    numbers: PropertyTable<u64>,
    indices: PropertyTable<usize>,
    colors: PropertyTable<u32>,
    decorations: PropertyTable<accesskit::TextDecoration>,
    lengths: PropertyTable<Vec<u8>>,
    coords: PropertyTable<Vec<u32>>,
    bools: PropertyTable<bool>,
    enums: PropertyTable<EnumValue>,
    transform: Option<accesskit::Affine>,
    bounds: Option<accesskit::Rect>,
    text_selection: Option<TextSelection>,
    custom_actions: Option<Vec<CustomAction>>,
}

impl View for Properties {
    type V = PropertiesView;

    closed spec fn view(&self) -> PropertiesView {
        PropertiesView {
            flags: self.flags@,
            node_id_vecs: self.node_id_vecs@,
            node_ids: self.node_ids@,
            strings: self.strings@,
            numbers: self.numbers@,
            indices: self.indices@,
            colors: self.colors@,
            decorations: self.decorations@,
            lengths: self.lengths@,
            coords: self.coords@,
            bools: self.bools@,
            enums: self.enums@,
            transform: self.transform,
            bounds: self.bounds,
            text_selection: self.text_selection,
            custom_actions: opt_actions_view(self.custom_actions),
        }
    }
}

impl PropertiesView {
    /// Every table has one slot per property of its shape, and each
    /// enumeration slot holds a value of its own property.
    pub open spec fn wf(self) -> bool {
        &&& self.flags.len() == FLAG_COUNT
        &&& self.node_id_vecs.len() == NODE_ID_VEC_COUNT
        &&& self.node_ids.len() == NODE_ID_COUNT
        &&& self.strings.len() == STRING_COUNT
        &&& self.numbers.len() == NUMBER_COUNT
        &&& self.indices.len() == INDEX_COUNT
        &&& self.colors.len() == COLOR_COUNT
        &&& self.decorations.len() == DECORATION_COUNT
        &&& self.lengths.len() == LENGTHS_COUNT
        &&& self.coords.len() == COORDS_COUNT
        &&& self.bools.len() == BOOL_COUNT
        &&& self.enums.len() == ENUM_COUNT
        &&& forall|i: int|
            0 <= i < ENUM_COUNT && #[trigger] self.enums[i] is Some ==> self.enums[i].unwrap().spec_property().spec_index() == i
    }

    /// The set with no property set.
    pub open spec fn empty() -> PropertiesView {
        PropertiesView {
            flags: Seq::new(FLAG_COUNT as nat, |i: int| None::<()>),
            node_id_vecs: Seq::new(NODE_ID_VEC_COUNT as nat, |i: int| None::<Vec<NodeId>>),
            node_ids: Seq::new(NODE_ID_COUNT as nat, |i: int| None::<NodeId>),
            strings: Seq::new(STRING_COUNT as nat, |i: int| None::<String>),
            numbers: Seq::new(NUMBER_COUNT as nat, |i: int| None::<u64>),
            indices: Seq::new(INDEX_COUNT as nat, |i: int| None::<usize>),
            colors: Seq::new(COLOR_COUNT as nat, |i: int| None::<u32>),
            decorations: Seq::new(DECORATION_COUNT as nat, |i: int| None::<accesskit::TextDecoration>),
            lengths: Seq::new(LENGTHS_COUNT as nat, |i: int| None::<Vec<u8>>),
            coords: Seq::new(COORDS_COUNT as nat, |i: int| None::<Vec<u32>>),
            bools: Seq::new(BOOL_COUNT as nat, |i: int| None::<bool>),
            enums: Seq::new(ENUM_COUNT as nat, |i: int| None::<EnumValue>),
            transform: None,
            bounds: None,
            text_selection: None,
            custom_actions: None,
        }
    }

    /// Which properties other than flags are set: each table's slots in
    /// registry order, then the four structured properties.
    pub open spec fn signature(self) -> Seq<bool> {
        Seq::new(self.node_id_vecs.len(), |i: int| self.node_id_vecs[i] is Some) + Seq::new(self.node_ids.len(), |i: int| self.node_ids[i] is Some) + Seq::new(self.strings.len(), |i: int| self.strings[i] is Some) + Seq::new(self.numbers.len(), |i: int| self.numbers[i] is Some) + Seq::new(self.indices.len(), |i: int| self.indices[i] is Some) + Seq::new(self.colors.len(), |i: int| self.colors[i] is Some) + Seq::new(self.decorations.len(), |i: int| self.decorations[i] is Some) + Seq::new(self.lengths.len(), |i: int| self.lengths[i] is Some) + Seq::new(self.coords.len(), |i: int| self.coords[i] is Some) + Seq::new(self.bools.len(), |i: int| self.bools[i] is Some) + Seq::new(self.enums.len(), |i: int| self.enums[i] is Some)
            + seq![
            self.transform is Some,
            self.bounds is Some,
            self.text_selection is Some,
            self.custom_actions is Some,
        ]
    }
}

impl Properties {
    /// Which properties other than flags are set, as `signature` describes.
    pub fn signature(&self) -> (r: Vec<bool>)
        ensures
            r@ == self@.signature(),
    {
        let mut r = self.node_id_vecs.presence();
        let mut part = self.node_ids.presence();
        r.append(&mut part);
        let mut part = self.strings.presence();
        r.append(&mut part);
        let mut part = self.numbers.presence();
        r.append(&mut part);
        let mut part = self.indices.presence();
        r.append(&mut part);
        let mut part = self.colors.presence();
        r.append(&mut part);
        let mut part = self.decorations.presence();
        r.append(&mut part);
        let mut part = self.lengths.presence();
        r.append(&mut part);
        let mut part = self.coords.presence();
        r.append(&mut part);
        let mut part = self.bools.presence();
        r.append(&mut part);
        let mut part = self.enums.presence();
        r.append(&mut part);
        r.push(self.transform.is_some());
        r.push(self.bounds.is_some());
        r.push(self.text_selection.is_some());
        r.push(self.custom_actions.is_some());
        assert(r@ =~= self@.signature());
        r
    }

    /// A set with no property set.
    pub fn new() -> (r: Properties)
        ensures
            r@ == PropertiesView::empty(),
            r@.wf(),
    {
        let r = Properties {
            flags: PropertyTable::new(FLAG_COUNT),
            node_id_vecs: PropertyTable::new(NODE_ID_VEC_COUNT),
            node_ids: PropertyTable::new(NODE_ID_COUNT),
            strings: PropertyTable::new(STRING_COUNT),
            numbers: PropertyTable::new(NUMBER_COUNT),
            indices: PropertyTable::new(INDEX_COUNT),
            colors: PropertyTable::new(COLOR_COUNT),
            decorations: PropertyTable::new(DECORATION_COUNT),
            lengths: PropertyTable::new(LENGTHS_COUNT),
            coords: PropertyTable::new(COORDS_COUNT),
            bools: PropertyTable::new(BOOL_COUNT),
            enums: PropertyTable::new(ENUM_COUNT),
            transform: None,
            bounds: None,
            text_selection: None,
            custom_actions: None,
        };
        assert(r@ =~= PropertiesView::empty());
        r
    }

    /// Whether a flag is on.
    pub fn get_flag(&self, p: FlagProperty) -> (r: bool)
        requires
            self@.wf(),
        ensures
            r == self@.flags[p.spec_index()] is Some,
    {
        self.flags.is_set(p.index())
    }

    /// Turns a flag on.
    pub fn set_flag(&mut self, p: FlagProperty)
        requires
            old(self)@.wf(),
        ensures
            final(self)@.wf(),
            final(self)@ == (PropertiesView { flags: old(self)@.flags.update(p.spec_index(), Some(())), ..old(self)@ }),
    {
        self.flags.set(p.index(), ());
    }

    /// Turns a flag off.
    pub fn clear_flag(&mut self, p: FlagProperty)
        requires
            old(self)@.wf(),
        ensures
            final(self)@.wf(),
            final(self)@ == (PropertiesView { flags: old(self)@.flags.update(p.spec_index(), None), ..old(self)@ }),
    {
        self.flags.clear(p.index());
    }

    /// The value of a property, if it is set.
    pub fn get_node_id_vec(&self, p: NodeIdVecProperty) -> (r: Option<&Vec<NodeId>>)
        requires
            self@.wf(),
        ensures
            r.is_some() == self@.node_id_vecs[p.spec_index()].is_some(),
            r matches Some(v) ==> *v == self@.node_id_vecs[p.spec_index()].unwrap(),
    {
        self.node_id_vecs.get(p.index())
    }

    /// Sets a property, replacing any earlier value.
    pub fn set_node_id_vec(&mut self, p: NodeIdVecProperty, v: Vec<NodeId>)
        requires
            old(self)@.wf(),
        ensures
            final(self)@.wf(),
            final(self)@ == (PropertiesView { node_id_vecs: old(self)@.node_id_vecs.update(p.spec_index(), Some(v)), ..old(self)@ }),
    {
        self.node_id_vecs.set(p.index(), v);
    }

    /// Unsets a property.
    pub fn clear_node_id_vec(&mut self, p: NodeIdVecProperty)
        requires
            old(self)@.wf(),
        ensures
            final(self)@.wf(),
            final(self)@ == (PropertiesView { node_id_vecs: old(self)@.node_id_vecs.update(p.spec_index(), None), ..old(self)@ }),
    {
        self.node_id_vecs.clear(p.index());
    }

    /// Appends an item to a sequence property, which becomes set if it was not.
    pub fn push_node_id_vec(&mut self, p: NodeIdVecProperty, item: NodeId)
        requires
            old(self)@.wf(),
        ensures
            final(self)@.wf(),
            final(self)@.node_id_vecs[p.spec_index()] is Some,
            items_of(final(self)@.node_id_vecs[p.spec_index()]) == items_of(old(self)@.node_id_vecs[p.spec_index()]).push(item),
            final(self)@ == (PropertiesView { node_id_vecs: final(self)@.node_id_vecs, ..old(self)@ }),
            forall|j: int| 0 <= j < NODE_ID_VEC_COUNT && j != p.spec_index() ==> final(self)@.node_id_vecs[j] == old(self)@.node_id_vecs[j],
    {
        self.node_id_vecs.push(p.index(), item);
    }

    /// The value of a property, if it is set.
    pub fn get_node_id(&self, p: NodeIdProperty) -> (r: Option<NodeId>)
        requires
            self@.wf(),
        ensures
            r == self@.node_ids[p.spec_index()],
    {
        match self.node_ids.get(p.index()) {
            Some(v) => Some(*v),
            None => None,
        }
    }

    /// Sets a property, replacing any earlier value.
    pub fn set_node_id(&mut self, p: NodeIdProperty, v: NodeId)
        requires
            old(self)@.wf(),
        ensures
            final(self)@.wf(),
            final(self)@ == (PropertiesView { node_ids: old(self)@.node_ids.update(p.spec_index(), Some(v)), ..old(self)@ }),
    {
        self.node_ids.set(p.index(), v);
    }

    /// Unsets a property.
    pub fn clear_node_id(&mut self, p: NodeIdProperty)
        requires
            old(self)@.wf(),
        ensures
            final(self)@.wf(),
            final(self)@ == (PropertiesView { node_ids: old(self)@.node_ids.update(p.spec_index(), None), ..old(self)@ }),
    {
        self.node_ids.clear(p.index());
    }

    /// The value of a property, if it is set.
    pub fn get_string(&self, p: StringProperty) -> (r: Option<&String>)
        requires
            self@.wf(),
        ensures
            r.is_some() == self@.strings[p.spec_index()].is_some(),
            r matches Some(v) ==> *v == self@.strings[p.spec_index()].unwrap(),
    {
        self.strings.get(p.index())
    }

    /// Sets a property, replacing any earlier value.
    pub fn set_string(&mut self, p: StringProperty, v: String)
        requires
            old(self)@.wf(),
        ensures
            final(self)@.wf(),
            final(self)@ == (PropertiesView { strings: old(self)@.strings.update(p.spec_index(), Some(v)), ..old(self)@ }),
    {
        self.strings.set(p.index(), v);
    }

    /// Unsets a property.
    pub fn clear_string(&mut self, p: StringProperty)
        requires
            old(self)@.wf(),
        ensures
            final(self)@.wf(),
            final(self)@ == (PropertiesView { strings: old(self)@.strings.update(p.spec_index(), None), ..old(self)@ }),
    {
        self.strings.clear(p.index());
    }

    /// The value of a property, if it is set.
    pub fn get_number(&self, p: NumberProperty) -> (r: Option<u64>)
        requires
            self@.wf(),
        ensures
            r == self@.numbers[p.spec_index()],
    {
        match self.numbers.get(p.index()) {
            Some(v) => Some(*v),
            None => None,
        }
    }

    /// Sets a property, replacing any earlier value.
    pub fn set_number(&mut self, p: NumberProperty, v: u64)
        requires
            old(self)@.wf(),
        ensures
            final(self)@.wf(),
            final(self)@ == (PropertiesView { numbers: old(self)@.numbers.update(p.spec_index(), Some(v)), ..old(self)@ }),
    {
        self.numbers.set(p.index(), v);
    }

    /// Unsets a property.
    pub fn clear_number(&mut self, p: NumberProperty)
        requires
            old(self)@.wf(),
        ensures
            final(self)@.wf(),
            final(self)@ == (PropertiesView { numbers: old(self)@.numbers.update(p.spec_index(), None), ..old(self)@ }),
    {
        self.numbers.clear(p.index());
    }

    /// The value of a property, if it is set.
    pub fn get_index(&self, p: IndexProperty) -> (r: Option<usize>)
        requires
            self@.wf(),
        ensures
            r == self@.indices[p.spec_index()],
    {
        match self.indices.get(p.index()) {
            Some(v) => Some(*v),
            None => None,
        }
    }

    /// Sets a property, replacing any earlier value.
    pub fn set_index(&mut self, p: IndexProperty, v: usize)
        requires
            old(self)@.wf(),
        ensures
            final(self)@.wf(),
            final(self)@ == (PropertiesView { indices: old(self)@.indices.update(p.spec_index(), Some(v)), ..old(self)@ }),
    {
        self.indices.set(p.index(), v);
    }

    /// Unsets a property.
    pub fn clear_index(&mut self, p: IndexProperty)
        requires
            old(self)@.wf(),
        ensures
            final(self)@.wf(),
            final(self)@ == (PropertiesView { indices: old(self)@.indices.update(p.spec_index(), None), ..old(self)@ }),
    {
        self.indices.clear(p.index());
    }

    /// The value of a property, if it is set.
    pub fn get_color(&self, p: ColorProperty) -> (r: Option<u32>)
        requires
            self@.wf(),
        ensures
            r == self@.colors[p.spec_index()],
    {
        match self.colors.get(p.index()) {
            Some(v) => Some(*v),
            None => None,
        }
    }

    /// Sets a property, replacing any earlier value.
    pub fn set_color(&mut self, p: ColorProperty, v: u32)
        requires
            old(self)@.wf(),
        ensures
            final(self)@.wf(),
            final(self)@ == (PropertiesView { colors: old(self)@.colors.update(p.spec_index(), Some(v)), ..old(self)@ }),
    {
        self.colors.set(p.index(), v);
    }

    /// Unsets a property.
    pub fn clear_color(&mut self, p: ColorProperty)
        requires
            old(self)@.wf(),
        ensures
            final(self)@.wf(),
            final(self)@ == (PropertiesView { colors: old(self)@.colors.update(p.spec_index(), None), ..old(self)@ }),
    {
        self.colors.clear(p.index());
    }

    /// The value of a property, if it is set.
    pub fn get_decoration(&self, p: DecorationProperty) -> (r: Option<accesskit::TextDecoration>)
        requires
            self@.wf(),
        ensures
            r == self@.decorations[p.spec_index()],
    {
        match self.decorations.get(p.index()) {
            Some(v) => Some(*v),
            None => None,
        }
    }

    /// Sets a property, replacing any earlier value.
    pub fn set_decoration(&mut self, p: DecorationProperty, v: accesskit::TextDecoration)
        requires
            old(self)@.wf(),
        ensures
            final(self)@.wf(),
            final(self)@ == (PropertiesView { decorations: old(self)@.decorations.update(p.spec_index(), Some(v)), ..old(self)@ }),
    {
        self.decorations.set(p.index(), v);
    }

    /// Unsets a property.
    pub fn clear_decoration(&mut self, p: DecorationProperty)
        requires
            old(self)@.wf(),
        ensures
            final(self)@.wf(),
            final(self)@ == (PropertiesView { decorations: old(self)@.decorations.update(p.spec_index(), None), ..old(self)@ }),
    {
        self.decorations.clear(p.index());
    }

    /// The value of a property, if it is set.
    pub fn get_lengths(&self, p: LengthsProperty) -> (r: Option<&Vec<u8>>)
        requires
            self@.wf(),
        ensures
            r.is_some() == self@.lengths[p.spec_index()].is_some(),
            r matches Some(v) ==> *v == self@.lengths[p.spec_index()].unwrap(),
    {
        self.lengths.get(p.index())
    }

    /// Sets a property, replacing any earlier value.
    pub fn set_lengths(&mut self, p: LengthsProperty, v: Vec<u8>)
        requires
            old(self)@.wf(),
        ensures
            final(self)@.wf(),
            final(self)@ == (PropertiesView { lengths: old(self)@.lengths.update(p.spec_index(), Some(v)), ..old(self)@ }),
    {
        self.lengths.set(p.index(), v);
    }

    /// Unsets a property.
    pub fn clear_lengths(&mut self, p: LengthsProperty)
        requires
            old(self)@.wf(),
        ensures
            final(self)@.wf(),
            final(self)@ == (PropertiesView { lengths: old(self)@.lengths.update(p.spec_index(), None), ..old(self)@ }),
    {
        self.lengths.clear(p.index());
    }

    /// The value of a property, if it is set.
    pub fn get_coords(&self, p: CoordsProperty) -> (r: Option<&Vec<u32>>)
        requires
            self@.wf(),
        ensures
            r.is_some() == self@.coords[p.spec_index()].is_some(),
            r matches Some(v) ==> *v == self@.coords[p.spec_index()].unwrap(),
    {
        self.coords.get(p.index())
    }

    /// Sets a property, replacing any earlier value.
    pub fn set_coords(&mut self, p: CoordsProperty, v: Vec<u32>)
        requires
            old(self)@.wf(),
        ensures
            final(self)@.wf(),
            final(self)@ == (PropertiesView { coords: old(self)@.coords.update(p.spec_index(), Some(v)), ..old(self)@ }),
    {
        self.coords.set(p.index(), v);
    }

    /// Unsets a property.
    pub fn clear_coords(&mut self, p: CoordsProperty)
        requires
            old(self)@.wf(),
        ensures
            final(self)@.wf(),
            final(self)@ == (PropertiesView { coords: old(self)@.coords.update(p.spec_index(), None), ..old(self)@ }),
    {
        self.coords.clear(p.index());
    }

    /// The value of a property, if it is set.
    pub fn get_bool(&self, p: BoolProperty) -> (r: Option<bool>)
        requires
            self@.wf(),
        ensures
            r == self@.bools[p.spec_index()],
    {
        match self.bools.get(p.index()) {
            Some(v) => Some(*v),
            None => None,
        }
    }

    /// Sets a property, replacing any earlier value.
    pub fn set_bool(&mut self, p: BoolProperty, v: bool)
        requires
            old(self)@.wf(),
        ensures
            final(self)@.wf(),
            final(self)@ == (PropertiesView { bools: old(self)@.bools.update(p.spec_index(), Some(v)), ..old(self)@ }),
    {
        self.bools.set(p.index(), v);
    }

    /// Unsets a property.
    pub fn clear_bool(&mut self, p: BoolProperty)
        requires
            old(self)@.wf(),
        ensures
            final(self)@.wf(),
            final(self)@ == (PropertiesView { bools: old(self)@.bools.update(p.spec_index(), None), ..old(self)@ }),
    {
        self.bools.clear(p.index());
    }

    /// The value of a property, if it is set.
    pub fn get_enum(&self, p: EnumProperty) -> (r: Option<EnumValue>)
        requires
            self@.wf(),
        ensures
            r == self@.enums[p.spec_index()],
    {
        match self.enums.get(p.index()) {
            Some(v) => Some(*v),
            None => None,
        }
    }

    /// Sets the property that the value belongs to.
    pub fn set_enum(&mut self, v: EnumValue)
        requires
            old(self)@.wf(),
        ensures
            final(self)@.wf(),
            final(self)@ == (PropertiesView { enums: old(self)@.enums.update(v.spec_property().spec_index(), Some(v)), ..old(self)@ }),
    {
        let p = v.property();
        self.enums.set(p.index(), v);
    }

    /// Unsets a property.
    pub fn clear_enum(&mut self, p: EnumProperty)
        requires
            old(self)@.wf(),
        ensures
            final(self)@.wf(),
            final(self)@ == (PropertiesView { enums: old(self)@.enums.update(p.spec_index(), None), ..old(self)@ }),
    {
        self.enums.clear(p.index());
    }

    /// The transform of the node's coordinates, if set.
    pub fn get_transform(&self) -> (r: Option<&accesskit::Affine>)
        ensures
            r.is_some() == self@.transform.is_some(),
            r matches Some(v) ==> *v == self@.transform.unwrap(),
    {
        match &self.transform {
            Some(v) => Some(v),
            None => None,
        }
    }

    /// Sets the transform of the node's coordinates.
    pub fn set_transform(&mut self, v: accesskit::Affine)
        requires
            old(self)@.wf(),
        ensures
            final(self)@.wf(),
            final(self)@ == (PropertiesView { transform: Some(v), ..old(self)@ }),
    {
        self.transform = Some(v);
    }

    /// Unsets the transform of the node's coordinates.
    pub fn clear_transform(&mut self)
        requires
            old(self)@.wf(),
        ensures
            final(self)@.wf(),
            final(self)@ == (PropertiesView { transform: None, ..old(self)@ }),
    {
        self.transform = None;
    }

    /// The bounding box, if set.
    pub fn get_bounds(&self) -> (r: Option<accesskit::Rect>)
        ensures
            r == self@.bounds,
    {
        self.bounds
    }

    /// Sets the bounding box.
    pub fn set_bounds(&mut self, v: accesskit::Rect)
        requires
            old(self)@.wf(),
        ensures
            final(self)@.wf(),
            final(self)@ == (PropertiesView { bounds: Some(v), ..old(self)@ }),
    {
        self.bounds = Some(v);
    }

    /// Unsets the bounding box.
    pub fn clear_bounds(&mut self)
        requires
            old(self)@.wf(),
        ensures
            final(self)@.wf(),
            final(self)@ == (PropertiesView { bounds: None, ..old(self)@ }),
    {
        self.bounds = None;
    }

    /// The text selection, if set.
    pub fn get_text_selection(&self) -> (r: Option<TextSelection>)
        ensures
            r == self@.text_selection,
    {
        self.text_selection
    }

    /// Sets the text selection.
    pub fn set_text_selection(&mut self, v: TextSelection)
        requires
            old(self)@.wf(),
        ensures
            final(self)@.wf(),
            final(self)@ == (PropertiesView { text_selection: Some(v), ..old(self)@ }),
    {
        self.text_selection = Some(v);
    }

    /// Unsets the text selection.
    pub fn clear_text_selection(&mut self)
        requires
            old(self)@.wf(),
        ensures
            final(self)@.wf(),
            final(self)@ == (PropertiesView { text_selection: None, ..old(self)@ }),
    {
        self.text_selection = None;
    }

    /// The custom actions, if set.
    pub fn get_custom_actions(&self) -> (r: Option<&Vec<CustomAction>>)
        ensures
            r.is_some() == self@.custom_actions.is_some(),
            r matches Some(v) ==> actions_view(v@) == self@.custom_actions.unwrap(),
    {
        match &self.custom_actions {
            Some(v) => Some(v),
            None => None,
        }
    }

    /// Sets the custom actions.
    pub fn set_custom_actions(&mut self, v: Vec<CustomAction>)
        requires
            old(self)@.wf(),
        ensures
            final(self)@.wf(),
            final(self)@ == (PropertiesView { custom_actions: Some(actions_view(v@)), ..old(self)@ }),
    {
        self.custom_actions = Some(v);
    }

    /// Appends a custom action; the property becomes set if it was not.
    pub fn push_custom_action(&mut self, a: CustomAction)
        requires
            old(self)@.wf(),
        ensures
            final(self)@.wf(),
            final(self)@ == (PropertiesView {
                custom_actions: Some(
                    match old(self)@.custom_actions {
                        Some(s) => s,
                        None => Seq::empty(),
                    }.push((a.id, a.description@)),
                ),
                ..old(self)@
            }),
    {
        let mut slot: Option<Vec<CustomAction>> = None;
        core::mem::swap(&mut self.custom_actions, &mut slot);
        let mut items = match slot {
            Some(v) => v,
            None => Vec::new(),
        };
        let ghost before = items@;
        proof {
            if old(self).custom_actions.is_none() {
                assert(actions_view(before) =~= Seq::empty());
            }
        }
        let ghost entry = (a.id, a.description@);
        items.push(a);
        proof {
            assert(actions_view(items@) =~= actions_view(before).push(entry));
        }
        self.custom_actions = Some(items);
    }

    /// Unsets the custom actions.
    pub fn clear_custom_actions(&mut self)
        requires
            old(self)@.wf(),
        ensures
            final(self)@.wf(),
            final(self)@ == (PropertiesView { custom_actions: None, ..old(self)@ }),
    {
        self.custom_actions = None;
    }
}

} // verus!
