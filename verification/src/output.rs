//! The output formats of the CSV conversion command.
//!
//! The conversion itself is plain data plumbing around outside serializers;
//! only the format selector and its parsing live here.

use vstd::prelude::*;

use crate::strutil::str_eq;

verus! {

/// A serialization format for converted records.
#[derive(Clone, Copy, Debug, PartialEq, Eq, Structural)]
pub enum OutputFormat {
    Json,
    Yaml,
    Toml,
}

/// Parse the name of an output format: `"json"`, `"yaml"` or `"toml"`.
pub fn parse_output_format(format: &str) -> (r: Result<OutputFormat, &'static str>)
    ensures
        format@ == "json"@ ==> r == Ok::<OutputFormat, &'static str>(OutputFormat::Json),
        format@ == "yaml"@ ==> r == Ok::<OutputFormat, &'static str>(OutputFormat::Yaml),
        format@ == "toml"@ ==> r == Ok::<OutputFormat, &'static str>(OutputFormat::Toml),
        format@ != "json"@ && format@ != "yaml"@ && format@ != "toml"@ ==> (r matches Err(e) && e@
            == "Invalid output format"@),
{
    proof {
        reveal_strlit("json");
        reveal_strlit("yaml");
        reveal_strlit("toml");
        assert("json"@ != "yaml"@) by {
            assert("json"@[0] != "yaml"@[0]);
        }
        assert("json"@ != "toml"@) by {
            assert("json"@[0] != "toml"@[0]);
        }
        assert("yaml"@ != "toml"@) by {
            assert("yaml"@[0] != "toml"@[0]);
        }
    }
    if str_eq(format, "json") {
        Ok(OutputFormat::Json)
    } else if str_eq(format, "yaml") {
        Ok(OutputFormat::Yaml)
    } else if str_eq(format, "toml") {
        Ok(OutputFormat::Toml)
    } else {
        Err("Invalid output format")
    }
}

} // verus!
