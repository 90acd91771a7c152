//! The naming helpers offered to templates: `interface_name` and
//! `mock_export_name`, and what each answers for the parameter it is given.

use vstd::prelude::*;
use vstd::string::*;

use crate::case::{
    ascii_camel_case, ascii_capitalized, camel_case, capitalize_first, capitalized, char_lowercase,
    char_uppercase,
    starts_ascii, to_camel_case,
};

verus! {

/// Why a helper refused its parameter.
#[derive(Debug, Clone, PartialEq, Eq)]
pub enum HelperError {
    /// The parameter is missing; the text says which one was expected.
    InvalidParamType(String),
    /// The parameter is not a string; the text says what was required.
    MissingVariable(Option<String>),
}

/// The interface name of a component: `I` followed by the name.
pub open spec fn interface_name_of(name: Seq<char>) -> Seq<char> {
    "I"@ + name
}

/// The name of a component's mock props export: `mock`, the name camelCased
/// and then capitalized, and `Props`.
pub open spec fn mock_export_name_of(name: Seq<char>) -> Seq<char> {
    "mock"@ + capitalized(camel_case(name)) + "Props"@
}

/// PascalCase to `I`-prefixed interface name, e.g. `BaseTemplate` to
/// `IBaseTemplate`.
pub fn interface_name(name: &str) -> (r: String)
    ensures
        r@ == interface_name_of(name@),
        r@.len() == name@.len() + 1,
        r@[0] == 'I',
        r@.drop_first() == name@,
{
    let mut out = String::from_str("I");
    out.append(name);
    proof {
        reveal_strlit("I");
        assert(out@.drop_first() =~= name@);
    }
    out
}

/// PascalCase to mock props export name, e.g. `BaseTemplate` to
/// `mockBaseTemplateProps`.
pub fn mock_export_name(name: &str) -> (r: String)
    ensures
        r@ == mock_export_name_of(name@),
        starts_ascii(name@) ==> r@ == "mock"@ + ascii_capitalized(ascii_camel_case(name@))
            + "Props"@,
        r@ == "mock"@ + capitalized(camel_case(name@)) + "Props"@,
        name@.len() == 0 ==> r@ == "mock"@ + "Props"@,
        name@.len() > 0 ==> r@ == "mock"@ + char_uppercase(char_lowercase(name@[0])[0])
            + char_lowercase(name@[0]).drop_first() + name@.drop_first() + "Props"@,
{
    let camel = to_camel_case(name);
    proof {
        if starts_ascii(name@) {
            crate::case::lemma_camel_case_idempotent(name@);
            assert(starts_ascii(camel@));
        }
    }
    let capital = capitalize_first(camel.as_str());
    let mut out = String::from_str("mock");
    out.append(capital.as_str());
    out.append("Props");
    assert(out@ =~= "mock"@ + capital@ + "Props"@);
    proof {
        if name@.len() > 0 {
            let l = char_lowercase(name@[0]);
            assert(camel@[0] == l[0]);
            assert(camel@.drop_first() =~= l.drop_first() + name@.drop_first());
            assert(capital@ =~= char_uppercase(l[0]) + l.drop_first() + name@.drop_first());
            assert(out@ =~= "mock"@ + char_uppercase(l[0]) + l.drop_first() + name@.drop_first()
                + "Props"@);
        } else {
            assert(out@ =~= "mock"@ + "Props"@);
        }
    }
    out
}

/// The text of a helper's first parameter. `param` is `None` when the helper
/// got no parameter, `Some(None)` when the parameter is not a string, and
/// `Some(Some(s))` when it is the string `s`.
fn first_param_text<'a>(param: Option<Option<&'a str>>) -> (r: Result<&'a str, HelperError>)
    ensures
        param is None ==> (r matches Err(HelperError::InvalidParamType(m)) && m@
            == "param 0 required"@),
        param == Some(None::<&str>) ==> (r matches Err(
            HelperError::MissingVariable(Some(m)),
        ) && m@ == "string required"@),
        param matches Some(Some(s)) ==> r == Ok::<&str, HelperError>(s),
{
    match param {
        None => Err(HelperError::InvalidParamType(String::from_str("param 0 required"))),
        Some(None) => Err(HelperError::MissingVariable(Some(String::from_str("string required")))),
        Some(Some(s)) => Ok(s),
    }
}

/// The `interface_name` helper: its output for the first parameter, or why
/// it refused it (see `first_param_text` for the shape of `param`).
pub fn interface_name_helper(param: Option<Option<&str>>) -> (r: Result<String, HelperError>)
    ensures
        param is None ==> (r matches Err(HelperError::InvalidParamType(m)) && m@
            == "param 0 required"@),
        param == Some(None::<&str>) ==> (r matches Err(
            HelperError::MissingVariable(Some(m)),
        ) && m@ == "string required"@),
        param matches Some(Some(s)) ==> (r matches Ok(out) && out@ == interface_name_of(s@)),
        param matches Some(Some(s)) ==> (r matches Ok(out) && out@.len() == s@.len() + 1 && out@[0]
            == 'I' && out@.drop_first() == s@),
{
    let name = first_param_text(param)?;
    Ok(interface_name(name))
}

/// The `mock_export_name` helper: its output for the first parameter, or why
/// it refused it (see `first_param_text` for the shape of `param`).
pub fn mock_export_name_helper(param: Option<Option<&str>>) -> (r: Result<String, HelperError>)
    ensures
        param is None ==> (r matches Err(HelperError::InvalidParamType(m)) && m@
            == "param 0 required"@),
        param == Some(None::<&str>) ==> (r matches Err(
            HelperError::MissingVariable(Some(m)),
        ) && m@ == "string required"@),
        param matches Some(Some(s)) ==> (r matches Ok(out) && out@ == mock_export_name_of(s@)),
        param matches Some(Some(s)) ==> (r matches Ok(out) && out@ == "mock"@ + capitalized(
            camel_case(s@),
        ) + "Props"@),
        param matches Some(Some(s)) ==> (s@.len() > 0 ==> (r matches Ok(out) && out@ == "mock"@
            + char_uppercase(char_lowercase(s@[0])[0]) + char_lowercase(s@[0]).drop_first()
            + s@.drop_first() + "Props"@)),
        param matches Some(Some(s)) ==> (starts_ascii(s@) ==> (r matches Ok(out) && out@
            == "mock"@ + ascii_capitalized(ascii_camel_case(s@)) + "Props"@)),
{
    let name = first_param_text(param)?;
    Ok(mock_export_name(name))
}

/// The interface name is the letter `I` followed by the whole name, for every
/// name, so different names never share an interface name.
pub proof fn lemma_interface_name_prefixes_i(a: Seq<char>, b: Seq<char>)
    ensures
        interface_name_of(a).len() == a.len() + 1,
        interface_name_of(a)[0] == 'I',
        interface_name_of(a).drop_first() == a,
        interface_name_of(a) == interface_name_of(b) ==> a == b,
{
    reveal_strlit("I");
    assert(interface_name_of(a).drop_first() =~= a);
    assert(interface_name_of(b).drop_first() =~= b);
}

/// The mock export name of every name is `mock`, then the name camelCased
/// and capitalized, then `Props`: the first character goes through its
/// lowercase mapping, whose first character then goes through its uppercase
/// mapping, and every later character is kept.
pub proof fn lemma_mock_name_recases_first_char(name: Seq<char>)
    ensures
        mock_export_name_of(name) == "mock"@ + capitalized(camel_case(name)) + "Props"@,
        name.len() == 0 ==> mock_export_name_of(name) == "mock"@ + "Props"@,
        name.len() > 0 && char_lowercase(name[0]).len() >= 1 ==> mock_export_name_of(name)
            == "mock"@ + char_uppercase(char_lowercase(name[0])[0]) + char_lowercase(
            name[0],
        ).drop_first() + name.drop_first() + "Props"@,
{
    if name.len() > 0 && char_lowercase(name[0]).len() >= 1 {
        let l = char_lowercase(name[0]);
        let camel = camel_case(name);
        assert(camel[0] == l[0]);
        assert(camel.drop_first() =~= l.drop_first() + name.drop_first());
        assert(capitalized(camel) =~= char_uppercase(l[0]) + l.drop_first() + name.drop_first());
        assert(mock_export_name_of(name) =~= "mock"@ + char_uppercase(l[0]) + l.drop_first()
            + name.drop_first() + "Props"@);
    }
    if name.len() == 0 {
        assert(mock_export_name_of(name) =~= "mock"@ + "Props"@);
    }
}

/// The mock export name of a PascalCase name whose first character is an
/// ASCII capital letter holds the name unchanged: `mock<Name>Props`.
pub proof fn lemma_mock_name_keeps_pascal_name(name: Seq<char>)
    requires
        name.len() > 0,
        'A' <= name[0] && name[0] <= 'Z',
    ensures
        starts_ascii(name),
        "mock"@ + ascii_capitalized(ascii_camel_case(name)) + "Props"@ == "mock"@ + name
            + "Props"@,
{
    crate::case::lemma_capitalize_undoes_camel_case(name);
}

} // verus!
