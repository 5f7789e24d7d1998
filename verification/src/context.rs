//! What the ability tells the app when it starts.
use vstd::prelude::*;
use crate::object::{JsObject, JsValue};

verus! {

/// A property that holds a value of the wrong type.
#[derive(Debug)]
pub struct PropertyError {
    pub property: String,
}

/// A property of the script object that describes the context.
#[derive(Clone, Copy, Debug, PartialEq, Eq, Structural)]
pub enum ContextProperty {
    BasePath,
    PrefPath,
    PreferredLocales,
    ModuleName,
    SdkApiVersion,
    DistributionApiVersion,
}

impl ContextProperty {
    /// The name of the property.
    pub open spec fn key(self) -> Seq<char> {
        match self {
            ContextProperty::BasePath => "basePath"@,
            ContextProperty::PrefPath => "prefPath"@,
            ContextProperty::PreferredLocales => "preferredLocales"@,
            ContextProperty::ModuleName => "moduleName"@,
            ContextProperty::SdkApiVersion => "sdkApiVersion"@,
            ContextProperty::DistributionApiVersion => "distributionOSApiVersion"@,
        }
    }

    /// The name of the property.
    pub fn name(self) -> (r: &'static str)
        ensures
            r@ == self.key(),
    {
        match self {
            ContextProperty::BasePath => "basePath",
            ContextProperty::PrefPath => "prefPath",
            ContextProperty::PreferredLocales => "preferredLocales",
            ContextProperty::ModuleName => "moduleName",
            ContextProperty::SdkApiVersion => "sdkApiVersion",
            ContextProperty::DistributionApiVersion => "distributionOSApiVersion",
        }
    }
}

/// What reading each property brought: its value, `None` where it is left out, or the
/// error of the reading.
pub struct ContextReads<E> {
    pub base_path: Result<Option<String>, E>,
    pub pref_path: Result<Option<String>, E>,
    pub preferred_locales: Result<Option<String>, E>,
    pub module_name: Result<Option<String>, E>,
    pub sdk_api_version: Result<Option<i32>, E>,
    pub distribution_api_version: Result<Option<i32>, E>,
}

impl<E> ContextReads<E> {
    /// The error of the first property, in the order of the fields, that could not be
    /// read.
    pub open spec fn first_error(self) -> Option<E> {
        if self.base_path is Err {
            Some(self.base_path->Err_0)
        } else if self.pref_path is Err {
            Some(self.pref_path->Err_0)
        } else if self.preferred_locales is Err {
            Some(self.preferred_locales->Err_0)
        } else if self.module_name is Err {
            Some(self.module_name->Err_0)
        } else if self.sdk_api_version is Err {
            Some(self.sdk_api_version->Err_0)
        } else if self.distribution_api_version is Err {
            Some(self.distribution_api_version->Err_0)
        } else {
            None
        }
    }

    /// The context, where every property could be read.
    pub open spec fn context(self) -> AbilityInitContext
        recommends
            self.first_error() is None,
    {
        AbilityInitContext {
            base_path: self.base_path->Ok_0,
            pref_path: self.pref_path->Ok_0,
            preferred_locales: self.preferred_locales->Ok_0,
            module_name: self.module_name->Ok_0,
            sdk_api_version: self.sdk_api_version->Ok_0,
            distribution_api_version: self.distribution_api_version->Ok_0,
        }
    }
}

/// The start context of an ability. Whatever the ability left out is `None`.
#[derive(Debug)]
pub struct AbilityInitContext {
    pub base_path: Option<String>,
    pub pref_path: Option<String>,
    pub preferred_locales: Option<String>,
    pub module_name: Option<String>,
    pub sdk_api_version: Option<i32>,
    pub distribution_api_version: Option<i32>,
}

impl Clone for AbilityInitContext {
    fn clone(&self) -> (r: AbilityInitContext)
        ensures
            r == *self,
    {
        AbilityInitContext {
            base_path: self.base_path.clone(),
            pref_path: self.pref_path.clone(),
            preferred_locales: self.preferred_locales.clone(),
            module_name: self.module_name.clone(),
            sdk_api_version: self.sdk_api_version,
            distribution_api_version: self.distribution_api_version,
        }
    }
}

impl Default for AbilityInitContext {
    fn default() -> (r: AbilityInitContext)
        ensures
            r == AbilityInitContext::empty(),
    {
        AbilityInitContext {
            base_path: None,
            pref_path: None,
            preferred_locales: None,
            module_name: None,
            sdk_api_version: None,
            distribution_api_version: None,
        }
    }
}

/// Whether the property is text or left out.
pub open spec fn text_or_absent(context: JsObject, name: Seq<char>) -> bool {
    context.property(name) is Text || context.property(name) is Undefined
}

/// Whether the property is a number or left out.
pub open spec fn number_or_absent(context: JsObject, name: Seq<char>) -> bool {
    context.property(name) is Number || context.property(name) is Undefined
}

/// The text of a property, where it has one.
pub open spec fn text_of(context: JsObject, name: Seq<char>) -> Option<String> {
    match context.property(name) {
        JsValue::Text(text) => Some(text),
        _ => None,
    }
}

/// The first property, in the order in which they are read, that holds a value
/// of the wrong type.
pub open spec fn first_mismatch(context: JsObject) -> Option<Seq<char>> {
    if !text_or_absent(context, ContextProperty::BasePath.key()) {
        Some(ContextProperty::BasePath.key())
    } else if !text_or_absent(context, ContextProperty::PrefPath.key()) {
        Some(ContextProperty::PrefPath.key())
    } else if !text_or_absent(context, ContextProperty::PreferredLocales.key()) {
        Some(ContextProperty::PreferredLocales.key())
    } else if !text_or_absent(context, ContextProperty::ModuleName.key()) {
        Some(ContextProperty::ModuleName.key())
    } else if !number_or_absent(context, ContextProperty::SdkApiVersion.key()) {
        Some(ContextProperty::SdkApiVersion.key())
    } else if !number_or_absent(context, ContextProperty::DistributionApiVersion.key()) {
        Some(ContextProperty::DistributionApiVersion.key())
    } else {
        None
    }
}

fn optional_text(context: &JsObject, name: &str) -> (r: Result<Option<String>, PropertyError>)
    ensures
        r is Ok <==> text_or_absent(*context, name@),
        r matches Ok(text) ==> text == text_of(*context, name@),
        r matches Err(e) ==> e.property@ == name@,
{
    match context.find(name) {
        Some(JsValue::Text(text)) => Ok(Some(text.clone())),
        Some(JsValue::Undefined) | None => Ok(None),
        _ => Err(PropertyError { property: name.to_owned() }),
    }
}

fn optional_number(context: &JsObject, name: &str) -> (r: Result<Option<i32>, PropertyError>)
    ensures
        r is Ok <==> number_or_absent(*context, name@),
        r matches Ok(number) ==> number == context.number(name@),
        r matches Err(e) ==> e.property@ == name@,
{
    match context.find(name) {
        Some(JsValue::Number(number)) => Ok(Some(*number)),
        Some(JsValue::Undefined) | None => Ok(None),
        _ => Err(PropertyError { property: name.to_owned() }),
    }
}

impl AbilityInitContext {
    /// A context that says nothing.
    pub open spec fn empty() -> AbilityInitContext {
        AbilityInitContext {
            base_path: None,
            pref_path: None,
            preferred_locales: None,
            module_name: None,
            sdk_api_version: None,
            distribution_api_version: None,
        }
    }

    /// The context that a script object describes.
    pub open spec fn described_by(context: JsObject) -> AbilityInitContext {
        AbilityInitContext {
            base_path: text_of(context, ContextProperty::BasePath.key()),
            pref_path: text_of(context, ContextProperty::PrefPath.key()),
            preferred_locales: text_of(context, ContextProperty::PreferredLocales.key()),
            module_name: text_of(context, ContextProperty::ModuleName.key()),
            sdk_api_version: context.number(ContextProperty::SdkApiVersion.key()),
            distribution_api_version: context.number(ContextProperty::DistributionApiVersion.key()),
        }
    }

    /// Reads the context. Without an object it is empty; a property of the wrong
    /// type is an error, which names the first such property.
    pub fn from_object(context: Option<&JsObject>) -> (r: Result<AbilityInitContext, PropertyError>)
        ensures
            match context {
                None => r == Ok::<AbilityInitContext, PropertyError>(AbilityInitContext::empty()),
                Some(object) => match first_mismatch(*object) {
                    None => r == Ok::<AbilityInitContext, PropertyError>(
                        AbilityInitContext::described_by(*object),
                    ),
                    Some(name) => r is Err && r->Err_0.property@ == name,
                },
            },
    {
        let reads: Option<ContextReads<PropertyError>> = match context {
            None => None,
            Some(object) => Some(
                ContextReads {
                    base_path: optional_text(object, ContextProperty::BasePath.name()),
                    pref_path: optional_text(object, ContextProperty::PrefPath.name()),
                    preferred_locales: optional_text(
                        object,
                        ContextProperty::PreferredLocales.name(),
                    ),
                    module_name: optional_text(object, ContextProperty::ModuleName.name()),
                    sdk_api_version: optional_number(object, ContextProperty::SdkApiVersion.name()),
                    distribution_api_version: optional_number(
                        object,
                        ContextProperty::DistributionApiVersion.name(),
                    ),
                },
            ),
        };
        AbilityInitContext::from_reads(reads)
    }

    /// Puts the context together from what reading each property brought; it is empty
    /// where there was no object to read. The first error, in the order of the
    /// properties, is passed on as it is.
    pub fn from_reads<E>(reads: Option<ContextReads<E>>) -> (r: Result<AbilityInitContext, E>)
        ensures
            r == match reads {
                None => Ok(AbilityInitContext::empty()),
                Some(reads) => match reads.first_error() {
                    Some(e) => Err(e),
                    None => Ok(reads.context()),
                },
            },
    {
        let reads: ContextReads<E> = match reads {
            Some(reads) => reads,
            None => return Ok(AbilityInitContext::default()),
        };
        let base_path: Option<String> = match reads.base_path {
            Ok(text) => text,
            Err(e) => return Err(e),
        };
        let pref_path: Option<String> = match reads.pref_path {
            Ok(text) => text,
            Err(e) => return Err(e),
        };
        let preferred_locales: Option<String> = match reads.preferred_locales {
            Ok(text) => text,
            Err(e) => return Err(e),
        };
        let module_name: Option<String> = match reads.module_name {
            Ok(text) => text,
            Err(e) => return Err(e),
        };
        let sdk_api_version: Option<i32> = match reads.sdk_api_version {
            Ok(number) => number,
            Err(e) => return Err(e),
        };
        let distribution_api_version: Option<i32> = match reads.distribution_api_version {
            Ok(number) => number,
            Err(e) => return Err(e),
        };
        Ok(
            AbilityInitContext {
                base_path,
                pref_path,
                preferred_locales,
                module_name,
                sdk_api_version,
                distribution_api_version,
            },
        )
    }
}

/// A context is put together exactly where every property could be read, and each field
/// is what reading its own property brought.
pub proof fn each_read_fills_its_field<E>(reads: ContextReads<E>)
    ensures
        reads.first_error() is None <==> {
            &&& reads.base_path is Ok
            &&& reads.pref_path is Ok
            &&& reads.preferred_locales is Ok
            &&& reads.module_name is Ok
            &&& reads.sdk_api_version is Ok
            &&& reads.distribution_api_version is Ok
        },
        reads.base_path matches Ok(value) ==> reads.context().base_path == value,
        reads.pref_path matches Ok(value) ==> reads.context().pref_path == value,
        reads.preferred_locales matches Ok(value) ==> reads.context().preferred_locales == value,
        reads.module_name matches Ok(value) ==> reads.context().module_name == value,
        reads.sdk_api_version matches Ok(value) ==> reads.context().sdk_api_version == value,
        reads.distribution_api_version matches Ok(value)
            ==> reads.context().distribution_api_version == value,
{
}

/// The error that is passed on is that of a property before which every other one could
/// be read.
pub proof fn first_failed_read_decides<E>(reads: ContextReads<E>, e: E)
    ensures
        reads.base_path == Err::<Option<String>, E>(e) ==> reads.first_error() == Some(e),
        reads.base_path is Ok && reads.pref_path == Err::<Option<String>, E>(e)
            ==> reads.first_error() == Some(e),
        reads.base_path is Ok && reads.pref_path is Ok && reads.preferred_locales == Err::<
            Option<String>,
            E,
        >(e) ==> reads.first_error() == Some(e),
        reads.base_path is Ok && reads.pref_path is Ok && reads.preferred_locales is Ok
            && reads.module_name == Err::<Option<String>, E>(e) ==> reads.first_error() == Some(e),
        reads.base_path is Ok && reads.pref_path is Ok && reads.preferred_locales is Ok
            && reads.module_name is Ok && reads.sdk_api_version == Err::<Option<i32>, E>(e)
            ==> reads.first_error() == Some(e),
        reads.base_path is Ok && reads.pref_path is Ok && reads.preferred_locales is Ok
            && reads.module_name is Ok && reads.sdk_api_version is Ok
            && reads.distribution_api_version == Err::<Option<i32>, E>(e) ==> reads.first_error()
            == Some(e),
{
}

/// What the script object holds under a property's name is what the field of that
/// property says, for each property on its own.
pub proof fn each_property_fills_its_field(object: JsObject, text: String, number: i32)
    ensures
        ({
            let context = AbilityInitContext::described_by(object);
            &&& object.property("basePath"@) == JsValue::Text(text) <==> context.base_path == Some(
                text,
            )
            &&& object.property("prefPath"@) == JsValue::Text(text) <==> context.pref_path == Some(
                text,
            )
            &&& object.property("preferredLocales"@) == JsValue::Text(text)
                <==> context.preferred_locales == Some(text)
            &&& object.property("moduleName"@) == JsValue::Text(text) <==> context.module_name
                == Some(text)
            &&& object.property("sdkApiVersion"@) == JsValue::Number(number)
                <==> context.sdk_api_version == Some(number)
            &&& object.property("distributionOSApiVersion"@) == JsValue::Number(number)
                <==> context.distribution_api_version == Some(number)
        }),
{
}

/// A property that is left out leaves its field empty, whatever the others hold.
pub proof fn absent_property_leaves_field_empty(object: JsObject)
    ensures
        ({
            let context = AbilityInitContext::described_by(object);
            &&& object.property("basePath"@) is Undefined ==> context.base_path is None
            &&& object.property("prefPath"@) is Undefined ==> context.pref_path is None
            &&& object.property("preferredLocales"@) is Undefined
                ==> context.preferred_locales is None
            &&& object.property("moduleName"@) is Undefined ==> context.module_name is None
            &&& object.property("sdkApiVersion"@) is Undefined ==> context.sdk_api_version is None
            &&& object.property("distributionOSApiVersion"@) is Undefined
                ==> context.distribution_api_version is None
        }),
{
}

/// A script object describes a context exactly where each of the four texts is text or
/// left out, and each of the two numbers is a number or left out.
pub proof fn well_typed_context_is_read(object: JsObject)
    ensures
        first_mismatch(object) is None <==> {
            &&& object.property("basePath"@) is Text || object.property("basePath"@) is Undefined
            &&& object.property("prefPath"@) is Text || object.property("prefPath"@) is Undefined
            &&& object.property("preferredLocales"@) is Text || object.property(
                "preferredLocales"@,
            ) is Undefined
            &&& object.property("moduleName"@) is Text || object.property("moduleName"@)
                is Undefined
            &&& object.property("sdkApiVersion"@) is Number || object.property("sdkApiVersion"@)
                is Undefined
            &&& object.property("distributionOSApiVersion"@) is Number || object.property(
                "distributionOSApiVersion"@,
            ) is Undefined
        },
        first_mismatch(object) matches Some(name) ==> !(object.property(name) is Undefined),
{
}

/// A context that says nothing has no field set.
pub proof fn empty_context_says_nothing()
    ensures
        AbilityInitContext::empty().base_path is None,
        AbilityInitContext::empty().pref_path is None,
        AbilityInitContext::empty().preferred_locales is None,
        AbilityInitContext::empty().module_name is None,
        AbilityInitContext::empty().sdk_api_version is None,
        AbilityInitContext::empty().distribution_api_version is None,
{
}

/// The property that is reported is the first one, in reading order, that holds a value of
/// the wrong type.
pub proof fn first_wrong_property_is_named(object: JsObject)
    ensures
        ({
            let path = object.property("basePath"@);
            let pref = object.property("prefPath"@);
            let locales = object.property("preferredLocales"@);
            let module = object.property("moduleName"@);
            let sdk = object.property("sdkApiVersion"@);
            let distribution = object.property("distributionOSApiVersion"@);
            let path_fits = path is Text || path is Undefined;
            let pref_fits = path_fits && (pref is Text || pref is Undefined);
            let locales_fit = pref_fits && (locales is Text || locales is Undefined);
            let module_fits = locales_fit && (module is Text || module is Undefined);
            let sdk_fits = module_fits && (sdk is Number || sdk is Undefined);
            let all_fit = sdk_fits && (distribution is Number || distribution is Undefined);
            &&& !path_fits ==> first_mismatch(object) == Some("basePath"@)
            &&& path_fits && !pref_fits ==> first_mismatch(object) == Some("prefPath"@)
            &&& pref_fits && !locales_fit ==> first_mismatch(object) == Some("preferredLocales"@)
            &&& locales_fit && !module_fits ==> first_mismatch(object) == Some("moduleName"@)
            &&& module_fits && !sdk_fits ==> first_mismatch(object) == Some("sdkApiVersion"@)
            &&& sdk_fits && !all_fit ==> first_mismatch(object) == Some(
                "distributionOSApiVersion"@,
            )
        }),
{
}

/// Each property has its own name on the script side.
pub proof fn context_properties_have_script_names(property: ContextProperty)
    ensures
        property is BasePath ==> property.key() == "basePath"@,
        property is PrefPath ==> property.key() == "prefPath"@,
        property is PreferredLocales ==> property.key() == "preferredLocales"@,
        property is ModuleName ==> property.key() == "moduleName"@,
        property is SdkApiVersion ==> property.key() == "sdkApiVersion"@,
        property is DistributionApiVersion ==> property.key() == "distributionOSApiVersion"@,
{
}

} // verus!
