use openharmony_ability::context::{AbilityInitContext, ContextProperty, ContextReads};
use openharmony_ability::geometry::{
    reinterpret_as_i64, truncate_to_i32, AvoidArea, AvoidAreaType, Rect,
};
use openharmony_ability::object::{
    parse_avoid_area_options, parse_rect_from_object, JsObject, JsValue,
};
use openharmony_ability::text::{push_decimal, push_signed_decimal};

fn object(properties: Vec<(&str, JsValue)>) -> JsObject {
    JsObject { properties: properties.into_iter().map(|(k, v)| (k.to_string(), v)).collect() }
}

fn rect(top: i32, left: i32, width: i32, height: i32) -> JsValue {
    JsValue::Object(object(vec![
        ("width", JsValue::Number(width)),
        ("height", JsValue::Number(height)),
        ("top", JsValue::Number(top)),
        ("left", JsValue::Number(left)),
    ]))
}

fn area(rects: Vec<(&str, JsValue)>) -> JsValue {
    let mut properties = vec![("visible", JsValue::Bool(true))];
    properties.extend(rects);
    JsValue::Object(object(properties))
}

fn all_rects() -> Vec<(&'static str, JsValue)> {
    vec![
        ("leftRect", rect(1, 2, 3, 4)),
        ("topRect", rect(5, 6, 7, 8)),
        ("rightRect", rect(9, 10, 11, 12)),
        ("bottomRect", rect(13, 14, 15, 16)),
    ]
}

#[test]
fn rect_needs_all_four_numbers() {
    let full = match rect(1, -2, 3, 4) {
        JsValue::Object(o) => o,
        _ => unreachable!(),
    };
    assert_eq!(
        parse_rect_from_object(&full),
        Some(Rect { top: 1, left: -2, width: 3, height: 4 })
    );
    assert_eq!(parse_rect_from_object(&object(vec![("top", JsValue::Number(1))])), None);
    let wrong = object(vec![
        ("top", JsValue::Text("1".to_string())),
        ("left", JsValue::Number(2)),
        ("width", JsValue::Number(3)),
        ("height", JsValue::Number(4)),
    ]);
    assert_eq!(parse_rect_from_object(&wrong), None);
}

#[test]
fn avoid_area_is_read_with_its_type() {
    let options = object(vec![("type", JsValue::Number(3)), ("area", area(all_rects()))]);
    assert_eq!(
        parse_avoid_area_options(&options),
        Some((
            AvoidAreaType::Keyboard,
            AvoidArea {
                visible: true,
                left_rect: Rect { top: 1, left: 2, width: 3, height: 4 },
                top_rect: Rect { top: 5, left: 6, width: 7, height: 8 },
                right_rect: Rect { top: 9, left: 10, width: 11, height: 12 },
                bottom_rect: Rect { top: 13, left: 14, width: 15, height: 16 },
            }
        ))
    );
}

#[test]
fn incomplete_avoid_area_is_none() {
    let mut rects = all_rects();
    rects.pop();
    let options = object(vec![("type", JsValue::Number(3)), ("area", area(rects))]);
    assert_eq!(parse_avoid_area_options(&options), None);
    assert_eq!(parse_avoid_area_options(&object(vec![("area", area(all_rects()))])), None);
    assert_eq!(parse_avoid_area_options(&object(vec![("type", JsValue::Number(3))])), None);
    let not_an_object = object(vec![("type", JsValue::Number(0)), ("area", JsValue::Other)]);
    assert_eq!(parse_avoid_area_options(&not_an_object), None);
}

#[test]
fn area_types_keep_their_numbers() {
    assert_eq!(AvoidAreaType::from(0), AvoidAreaType::System);
    assert_eq!(AvoidAreaType::from(1), AvoidAreaType::Cutout);
    assert_eq!(AvoidAreaType::from(2), AvoidAreaType::SystemGesture);
    assert_eq!(AvoidAreaType::from(3), AvoidAreaType::Keyboard);
    assert_eq!(AvoidAreaType::from(4), AvoidAreaType::NavigationIndicator);
    for code in [-1, 0, 1, 2, 3, 4, 5, i32::MAX] {
        assert_eq!(AvoidAreaType::from(code).code(), code);
    }
}

#[test]
fn missing_context_is_empty() {
    let context = AbilityInitContext::from_object(None).unwrap();
    assert_eq!(context.base_path, None);
    assert_eq!(context.sdk_api_version, None);
    let context = AbilityInitContext::from_object(Some(&object(vec![]))).unwrap();
    assert_eq!(context.module_name, None);
    assert_eq!(context.distribution_api_version, None);
}

#[test]
fn context_is_read_by_name() {
    let source = object(vec![
        ("moduleName", JsValue::Text("entry".to_string())),
        ("basePath", JsValue::Text("/data".to_string())),
        ("prefPath", JsValue::Undefined),
        ("preferredLocales", JsValue::Text("zh-Hans".to_string())),
        ("sdkApiVersion", JsValue::Number(12)),
        ("distributionOSApiVersion", JsValue::Number(50000)),
    ]);
    let context = AbilityInitContext::from_object(Some(&source)).unwrap();
    assert_eq!(context.base_path.as_deref(), Some("/data"));
    assert_eq!(context.pref_path, None);
    assert_eq!(context.preferred_locales.as_deref(), Some("zh-Hans"));
    assert_eq!(context.module_name.as_deref(), Some("entry"));
    assert_eq!(context.sdk_api_version, Some(12));
    assert_eq!(context.distribution_api_version, Some(50000));
}

#[test]
fn first_wrong_property_is_reported() {
    let source = object(vec![
        ("sdkApiVersion", JsValue::Text("12".to_string())),
        ("prefPath", JsValue::Number(1)),
        ("moduleName", JsValue::Other),
    ]);
    let error = AbilityInitContext::from_object(Some(&source)).unwrap_err();
    assert_eq!(error.property, "prefPath");
    let source = object(vec![("sdkApiVersion", JsValue::Bool(true))]);
    let error = AbilityInitContext::from_object(Some(&source)).unwrap_err();
    assert_eq!(error.property, "sdkApiVersion");
}

#[test]
fn error_of_the_first_failed_read_is_passed_on() {
    assert!(AbilityInitContext::from_reads::<&str>(None).unwrap().base_path.is_none());
    let reads = ContextReads {
        base_path: Ok(Some("/data".to_string())),
        pref_path: Ok(None),
        preferred_locales: Ok(None),
        module_name: Ok(Some("entry".to_string())),
        sdk_api_version: Ok(Some(12)),
        distribution_api_version: Ok::<Option<i32>, &str>(None),
    };
    let context = AbilityInitContext::from_reads(Some(reads)).unwrap();
    assert_eq!(context.base_path.as_deref(), Some("/data"));
    assert_eq!(context.module_name.as_deref(), Some("entry"));
    assert_eq!(context.sdk_api_version, Some(12));
    let reads = ContextReads {
        base_path: Ok(None),
        pref_path: Ok(None),
        preferred_locales: Ok(None),
        module_name: Err("thrown"),
        sdk_api_version: Ok(None),
        distribution_api_version: Err("later"),
    };
    assert_eq!(AbilityInitContext::from_reads(Some(reads)).unwrap_err(), "thrown");
}

#[test]
fn context_properties_have_the_script_names() {
    assert_eq!(ContextProperty::BasePath.name(), "basePath");
    assert_eq!(ContextProperty::PrefPath.name(), "prefPath");
    assert_eq!(ContextProperty::PreferredLocales.name(), "preferredLocales");
    assert_eq!(ContextProperty::ModuleName.name(), "moduleName");
    assert_eq!(ContextProperty::SdkApiVersion.name(), "sdkApiVersion");
    assert_eq!(ContextProperty::DistributionApiVersion.name(), "distributionOSApiVersion");
}

#[test]
fn sizes_keep_their_low_bits() {
    assert_eq!(truncate_to_i32(1080), 1080);
    assert_eq!(truncate_to_i32(0x7fff_ffff), i32::MAX);
    assert_eq!(truncate_to_i32(0x8000_0000), i32::MIN);
    assert_eq!(truncate_to_i32(0xffff_ffff), -1);
    assert_eq!(truncate_to_i32(0x1_0000_0005), 5);
    assert_eq!(reinterpret_as_i64(17), 17);
    assert_eq!(reinterpret_as_i64(u64::MAX), -1);
    assert_eq!(reinterpret_as_i64(0x8000_0000_0000_0000), i64::MIN);
}

#[test]
fn numbers_are_written_in_decimal() {
    let mut text = String::from("n=");
    push_decimal(&mut text, 0);
    push_decimal(&mut text, 1234567890);
    push_decimal(&mut text, u64::MAX);
    assert_eq!(text, "n=0123456789018446744073709551615");
    let mut text = String::new();
    push_signed_decimal(&mut text, i64::MIN);
    push_signed_decimal(&mut text, 42);
    assert_eq!(text, "-922337203685477580842");
}
