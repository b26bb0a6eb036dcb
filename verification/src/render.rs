//! The renderer: one dependency-declaration string per supported build
//! tool. The set of dialects is closed; a dialect without a template fails
//! with `UnsupportedFormat` instead of guessing a default.
use vstd::prelude::*;
use vstd::string::StringExecFns;

use crate::decode::Artifact;
use crate::decode::ArtifactView;
use crate::errors::SearchError;

verus! {

/// A build-tool dialect for dependency declarations.
#[derive(Clone, Copy, Debug, PartialEq, Eq, Structural)]
pub enum Dialect {
    Sbt,
    Gradle,
    Grape,
    Ivy,
    Leiningen,
    MavenPom,
    ScalaAmmonite,
    Buildr,
}

/// The dependency-declaration line for an artifact in the given dialect,
/// or `UnsupportedFormat` for the dialects that have no template yet
/// (ScalaAmmonite and Buildr).
pub open spec fn render_spec(d: Dialect, a: ArtifactView) -> Result<Seq<char>, SearchError> {
    match d {
        Dialect::Sbt => Ok(
            "libraryDependencies += \""@ + a.group_id + "\" % \""@ + a.artifact_id + "\" % \""@
                + a.latest_version + "\""@,
        ),
        Dialect::Gradle => Ok(
            "compile '"@ + a.group_id + ":"@ + a.artifact_id + ":"@ + a.latest_version + "'"@,
        ),
        Dialect::Grape => Ok(
            "@Grab(group='"@ + a.group_id + "', module='"@ + a.artifact_id + "', version='"@
                + a.latest_version + "')"@,
        ),
        Dialect::Ivy => Ok(
            "<dependency org=\""@ + a.group_id + "\" name=\""@ + a.artifact_id + "\" rev=\""@
                + a.latest_version + "\" />"@,
        ),
        Dialect::Leiningen => Ok(
            "["@ + a.group_id + "/"@ + a.artifact_id + " \""@ + a.latest_version + "\"]"@,
        ),
        Dialect::MavenPom => Ok(
            "<dependency>\n  <groupId>"@ + a.group_id + "</groupId>\n  <artifactId>"@
                + a.artifact_id + "</artifactId>\n  <version>"@ + a.latest_version
                + "</version>\n</dependency>"@,
        ),
        Dialect::ScalaAmmonite => Err(SearchError::UnsupportedFormat),
        Dialect::Buildr => Err(SearchError::UnsupportedFormat),
    }
}

/// Renders one artifact as a dependency declaration in the given dialect.
/// Pure: it fails exactly on the dialects without a template, and then
/// returns no partially filled string.
pub fn render(d: Dialect, a: &Artifact) -> (r: Result<String, SearchError>)
    ensures
        match r {
            Ok(s) => render_spec(d, a@) == Ok::<Seq<char>, SearchError>(s@),
            Err(e) => render_spec(d, a@) == Err::<Seq<char>, SearchError>(e) && e
                == SearchError::UnsupportedFormat,
        },
        (r is Err) <==> (d == Dialect::ScalaAmmonite || d == Dialect::Buildr),
{
    match d {
        Dialect::Sbt => {
            let mut s = String::from_str("libraryDependencies += \"");
            s.append(a.group_id.as_str());
            s.append("\" % \"");
            s.append(a.artifact_id.as_str());
            s.append("\" % \"");
            s.append(a.latest_version.as_str());
            s.append("\"");
            proof {
                assert(s@ =~= render_spec(d, a@)->Ok_0);
            }
            Ok(s)
        },
        Dialect::Gradle => {
            let mut s = String::from_str("compile '");
            s.append(a.group_id.as_str());
            s.append(":");
            s.append(a.artifact_id.as_str());
            s.append(":");
            s.append(a.latest_version.as_str());
            s.append("'");
            proof {
                assert(s@ =~= render_spec(d, a@)->Ok_0);
            }
            Ok(s)
        },
        Dialect::Grape => {
            let mut s = String::from_str("@Grab(group='");
            s.append(a.group_id.as_str());
            s.append("', module='");
            s.append(a.artifact_id.as_str());
            s.append("', version='");
            s.append(a.latest_version.as_str());
            s.append("')");
            proof {
                assert(s@ =~= render_spec(d, a@)->Ok_0);
            }
            Ok(s)
        },
        Dialect::Ivy => {
            let mut s = String::from_str("<dependency org=\"");
            s.append(a.group_id.as_str());
            s.append("\" name=\"");
            s.append(a.artifact_id.as_str());
            s.append("\" rev=\"");
            s.append(a.latest_version.as_str());
            s.append("\" />");
            proof {
                assert(s@ =~= render_spec(d, a@)->Ok_0);
            }
            Ok(s)
        },
        Dialect::Leiningen => {
            let mut s = String::from_str("[");
            s.append(a.group_id.as_str());
            s.append("/");
            s.append(a.artifact_id.as_str());
            s.append(" \"");
            s.append(a.latest_version.as_str());
            s.append("\"]");
            proof {
                assert(s@ =~= render_spec(d, a@)->Ok_0);
            }
            Ok(s)
        },
        Dialect::MavenPom => {
            let mut s = String::from_str("<dependency>\n  <groupId>");
            s.append(a.group_id.as_str());
            s.append("</groupId>\n  <artifactId>");
            s.append(a.artifact_id.as_str());
            s.append("</artifactId>\n  <version>");
            s.append(a.latest_version.as_str());
            s.append("</version>\n</dependency>");
            proof {
                assert(s@ =~= render_spec(d, a@)->Ok_0);
            }
            Ok(s)
        },
        Dialect::ScalaAmmonite => Err(SearchError::UnsupportedFormat),
        Dialect::Buildr => Err(SearchError::UnsupportedFormat),
    }
}

/// The dialect selected by a configuration name, if any.
pub open spec fn dialect_of_name(s: Seq<char>) -> Option<Dialect> {
    if s == "sbt"@ {
        Some(Dialect::Sbt)
    } else if s == "gradle"@ {
        Some(Dialect::Gradle)
    } else if s == "grape"@ {
        Some(Dialect::Grape)
    } else if s == "ivy"@ {
        Some(Dialect::Ivy)
    } else if s == "lein"@ {
        Some(Dialect::Leiningen)
    } else if s == "pom"@ {
        Some(Dialect::MavenPom)
    } else if s == "amm"@ {
        Some(Dialect::ScalaAmmonite)
    } else if s == "buildr"@ {
        Some(Dialect::Buildr)
    } else {
        None
    }
}

/// Maps a configuration name to its dialect.
pub fn dialect_from_name(s: &str) -> (r: Option<Dialect>)
    ensures
        r == dialect_of_name(s@),
{
    if crate::text::str_eq(s, "sbt") {
        Some(Dialect::Sbt)
    } else if crate::text::str_eq(s, "gradle") {
        Some(Dialect::Gradle)
    } else if crate::text::str_eq(s, "grape") {
        Some(Dialect::Grape)
    } else if crate::text::str_eq(s, "ivy") {
        Some(Dialect::Ivy)
    } else if crate::text::str_eq(s, "lein") {
        Some(Dialect::Leiningen)
    } else if crate::text::str_eq(s, "pom") {
        Some(Dialect::MavenPom)
    } else if crate::text::str_eq(s, "amm") {
        Some(Dialect::ScalaAmmonite)
    } else if crate::text::str_eq(s, "buildr") {
        Some(Dialect::Buildr)
    } else {
        None
    }
}

} // verus!
