use vstd::prelude::*;

verus! {

/// Static description of the application shown by the front end.
#[derive(Debug, PartialEq, Eq)]
pub struct AppInfo {
    pub name: String,
    pub version: String,
    pub description: String,
}

pub open spec fn app_name() -> Seq<char> {
    "Multi-Tool AI"@
}

pub open spec fn app_version() -> Seq<char> {
    "1.0.0"@
}

pub open spec fn app_description() -> Seq<char> {
    "A multi-tool platform made up of small, single-use AI utilities"@
}

/// The application's name, version and description.
pub fn get_app_info() -> (r: AppInfo)
    ensures
        r.name@ == app_name(),
        r.version@ == app_version(),
        r.description@ == app_description(),
{
    AppInfo {
        name: String::from_str("Multi-Tool AI"),
        version: String::from_str("1.0.0"),
        description: String::from_str(
            "A multi-tool platform made up of small, single-use AI utilities",
        ),
    }
}

} // verus!
