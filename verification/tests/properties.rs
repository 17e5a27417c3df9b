use obs_rs::properties::{
    ListValue, BoolProp, ColorProp, ComboFormat, ComboType, EditableListProp, EditableListType, FontProp,
    NumberProp, PathProp, PathType, Properties, PropertyKind, RangeBound, TextProp, TextType,
};

#[test]
fn number_prop_int_defaults_cover_type() {
    let mut props = Properties::new();
    props.add("v", "Value", NumberProp::<i16>::new_int());
    assert!(matches!(
        props.get(0).kind,
        PropertyKind::Int { min: -32768, max: 32767, step: 1 }
    ));
}

#[test]
fn number_prop_with_range_inclusive_and_exclusive() {
    let p = NumberProp::<i32>::new_int()
        .with_step(5)
        .with_range((RangeBound::Excluded(0), RangeBound::Excluded(100)));
    let mut props = Properties::new();
    props.add("n", "N", p);
    assert!(matches!(props.get(0).kind, PropertyKind::Int { min: 5, max: 95, step: 5 }));

    let q = NumberProp::<i32>::new_int()
        .with_range((RangeBound::Included(-3), RangeBound::Included(7)))
        .with_slider();
    props.add("m", "M", q);
    assert!(matches!(props.get(1).kind, PropertyKind::IntSlider { min: -3, max: 7, step: 1 }));
}

#[test]
fn number_prop_unbounded_ends() {
    let p = NumberProp::<u8>::new_int().with_range((RangeBound::Unbounded, RangeBound::Included(9)));
    let mut props = Properties::new();
    props.add("u", "U", p);
    assert!(matches!(props.get(0).kind, PropertyKind::Int { min: 0, max: 9, step: 1 }));
}

#[test]
fn number_prop_range_uses_step_at_call_time() {
    let p = NumberProp::<i64>::new_int()
        .with_range((RangeBound::Excluded(10), RangeBound::Unbounded))
        .with_step(3)
        .with_range((RangeBound::Excluded(10), RangeBound::Excluded(20)));
    let mut props = Properties::new();
    props.add("s", "S", p);
    assert!(matches!(props.get(0).kind, PropertyKind::Int { min: 13, max: 17, step: 3 }));
}

#[test]
fn number_prop_fits_c_int() {
    assert!(!NumberProp::<i64>::new_int().fits_c_int());
    assert!(!NumberProp::<u32>::new_int().fits_c_int());
    assert!(NumberProp::<i32>::new_int().fits_c_int());
    assert!(NumberProp::<u32>::new_int()
        .with_range((RangeBound::Included(0), RangeBound::Included(1000)))
        .fits_c_int());
}

#[test]
fn properties_keep_order_and_labels() {
    let mut props = Properties::new();
    assert_eq!(props.len(), 0);
    props
        .add("enabled", "Enabled", BoolProp)
        .add("color", "Color", ColorProp)
        .add("font", "Font", FontProp)
        .add("text", "Text", TextProp::new(TextType::Password));
    assert_eq!(props.len(), 4);
    assert_eq!(props.get(0).name, "enabled");
    assert_eq!(props.get(0).description, "Enabled");
    assert!(matches!(props.get(0).kind, PropertyKind::Bool));
    assert!(matches!(props.get(1).kind, PropertyKind::Color));
    assert!(matches!(props.get(2).kind, PropertyKind::Font));
    assert!(matches!(props.get(3).kind, PropertyKind::Text(TextType::Password)));
    assert_eq!(props.get(3).name, "text");
    assert_eq!(Properties::default().len(), 0);
}

#[test]
fn path_and_list_props_carry_options() {
    let mut props = Properties::new();
    props.add(
        "file",
        "File",
        PathProp::new(PathType::File)
            .with_filter("Images (*.png *.jpg)")
            .with_default_path("/tmp"),
    );
    props.add("dir", "Dir", PathProp::new(PathType::Directory));
    props.add(
        "list",
        "List",
        EditableListProp::new(EditableListType::Files).with_filter("*.mp4"),
    );
    match &props.get(0).kind {
        PropertyKind::Path { typ, filter, default_path } => {
            assert_eq!(*typ, PathType::File);
            assert_eq!(filter.as_deref(), Some("Images (*.png *.jpg)"));
            assert_eq!(default_path.as_deref(), Some("/tmp"));
        }
        other => panic!("unexpected kind {:?}", other),
    }
    match &props.get(1).kind {
        PropertyKind::Path { typ, filter, default_path } => {
            assert_eq!(*typ, PathType::Directory);
            assert!(filter.is_none());
            assert!(default_path.is_none());
        }
        other => panic!("unexpected kind {:?}", other),
    }
    match &props.get(2).kind {
        PropertyKind::EditableList { typ, filter, default_path } => {
            assert_eq!(*typ, EditableListType::Files);
            assert_eq!(filter.as_deref(), Some("*.mp4"));
            assert!(default_path.is_none());
        }
        other => panic!("unexpected kind {:?}", other),
    }
}

#[test]
fn property_enum_raw_values() {
    assert_eq!(TextType::Default.as_raw(), 0);
    assert_eq!(TextType::Multiline.as_raw(), 2);
    assert_eq!(TextType::from_raw(1), Ok(TextType::Password));
    assert_eq!(TextType::from_raw(5).unwrap_err().raw, 5);
    assert_eq!(PathType::Directory.as_raw(), 2);
    assert_eq!(PathType::from_raw(1), Ok(PathType::FileSave));
    assert_eq!(EditableListType::FilesAndUrls.as_raw(), 2);
    assert_eq!(EditableListType::from_raw(3).unwrap_err().raw, 3);
    assert_eq!(ComboFormat::from_raw(ComboFormat::String.as_raw()), Ok(ComboFormat::String));
    assert_eq!(ComboType::from_raw(ComboType::List.as_raw()), Ok(ComboType::List));
}

#[test]
fn list_property_entries() {
    let mut props = Properties::new();
    {
        let mut list = props.add_list::<String>("mode", "Mode", false);
        list.push("Fast", String::from("fast"));
        list.push("Slow", String::from("slow"));
        list.insert(1, "Medium", String::from("medium"));
        list.disable(2, true);
        list.disable(9, true);
        list.remove(0);
        list.remove(5);
    }
    assert_eq!(props.len(), 1);
    assert_eq!(props.get(0).name, "mode");
    assert_eq!(props.get(0).description, "Mode");
    match &props.get(0).kind {
        PropertyKind::List { combo_type, format, items } => {
            assert_eq!(*combo_type, ComboType::List);
            assert_eq!(*format, ComboFormat::String);
            assert_eq!(items.len(), 2);
            assert_eq!(items[0].name, "Medium");
            assert_eq!(items[0].value, ListValue::Text(String::from("medium")));
            assert!(!items[0].disabled);
            assert_eq!(items[1].name, "Slow");
            assert_eq!(items[1].value, ListValue::Text(String::from("slow")));
            assert!(items[1].disabled);
        }
        other => panic!("unexpected kind {:?}", other),
    }
}

#[test]
fn editable_int_list() {
    let mut props = Properties::new();
    props.add("flag", "Flag", BoolProp);
    {
        let mut list = props.add_list::<i64>("rate", "Rate", true);
        list.push("Low", 30);
        list.push("High", 60);
    }
    assert_eq!(props.len(), 2);
    match &props.get(1).kind {
        PropertyKind::List { combo_type, format, items } => {
            assert_eq!(*combo_type, ComboType::Editable);
            assert_eq!(*format, ComboFormat::Int);
            let values: Vec<&ListValue> = items.iter().map(|i| &i.value).collect();
            assert_eq!(values, vec![&ListValue::Int(30), &ListValue::Int(60)]);
        }
        other => panic!("unexpected kind {:?}", other),
    }
}
