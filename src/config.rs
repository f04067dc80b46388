//! The registry of languages: for each, the file extensions that select it
//! and its comment syntax.
use vstd::prelude::*;

use crate::text::{chars_of, same_chars};

verus! {

/// A language's file extensions and comment syntax, as plain character sequences.
pub struct InfoView {
    pub language: Seq<char>,
    pub file_ext: Seq<Seq<char>>,
    pub single: Seq<Seq<char>>,
    pub multi: Seq<(Seq<char>, Seq<char>)>,
}

pub open spec fn strs_view(v: Seq<&'static str>) -> Seq<Seq<char>> {
    v.map_values(|s: &'static str| s@)
}

pub open spec fn pairs_view(v: Seq<(&'static str, &'static str)>) -> Seq<(Seq<char>, Seq<char>)> {
    v.map_values(|p: (&'static str, &'static str)| (p.0@, p.1@))
}

/// A language profile: its name, the extensions (without the dot) that
/// select it, the prefixes of its single-line comments and the start and
/// end markers of its block comments, each list in the order it is tried.
#[derive(Debug, Clone)]
pub struct Info {
    pub language: &'static str,
    pub file_ext: Vec<&'static str>,
    pub single: Vec<&'static str>,
    pub multi: Vec<(&'static str, &'static str)>,
}

impl View for Info {
    type V = InfoView;

    open spec fn view(&self) -> InfoView {
        InfoView {
            language: self.language@,
            file_ext: strs_view(self.file_ext@),
            single: strs_view(self.single@),
            multi: pairs_view(self.multi@),
        }
    }
}

impl Info {
    pub fn new(
        language: &'static str,
        file_ext: Vec<&'static str>,
        single: Vec<&'static str>,
        multi: Vec<(&'static str, &'static str)>,
    ) -> (r: Self)
        ensures
            r.language == language,
            r.file_ext@ == file_ext@,
            r.single@ == single@,
            r.multi@ == multi@,
            r@ == (InfoView {
                language: language@,
                file_ext: strs_view(file_ext@),
                single: strs_view(single@),
                multi: pairs_view(multi@),
            }),
    {
        Info { language, file_ext, single, multi }
    }

    /// Whether `ext` is one of the extensions of this language.
    pub fn has_extension(&self, ext: &str) -> (r: bool)
        ensures
            r == self@.file_ext.contains(ext@),
    {
        let e = chars_of(ext);
        let mut i: usize = 0;
        while i < self.file_ext.len()
            invariant
                i <= self.file_ext.len(),
                e@ == ext@,
                forall|k: int| 0 <= k < i ==> self@.file_ext[k] != ext@,
            decreases self.file_ext.len() - i,
        {
            let c = chars_of(self.file_ext[i]);
            if same_chars(&c, &e) {
                assert(self@.file_ext[i as int] == ext@);
                return true;
            }
            i = i + 1;
        }
        false
    }
}

/// The profile of the first language in `table[i..]` that lists `ext`.
pub open spec fn lookup_from(table: Seq<InfoView>, ext: Seq<char>, i: int) -> Option<InfoView>
    decreases table.len() - i,
{
    if i < 0 || i >= table.len() {
        None
    } else if table[i].file_ext.contains(ext) {
        Some(table[i])
    } else {
        lookup_from(table, ext, i + 1)
    }
}

/// The first of `infos[i..]` whose extensions include `ext`.
pub open spec fn lookup_info_from(infos: Seq<Info>, ext: Seq<char>, i: int) -> Option<Info>
    decreases infos.len() - i,
{
    if i < 0 || i >= infos.len() {
        None
    } else if infos[i]@.file_ext.contains(ext) {
        Some(infos[i])
    } else {
        lookup_info_from(infos, ext, i + 1)
    }
}

/// The first of `infos` whose extensions include `ext`.
pub open spec fn lookup_info(infos: Seq<Info>, ext: Seq<char>) -> Option<Info> {
    lookup_info_from(infos, ext, 0)
}

/// The profile of the first language in `table` that lists `ext`.
pub open spec fn lookup(table: Seq<InfoView>, ext: Seq<char>) -> Option<InfoView> {
    lookup_from(table, ext, 0)
}

/// Whether no extension is listed by two languages of `table`: then the
/// language that an extension selects does not depend on the order of the
/// table.
pub open spec fn unique_extensions(table: Seq<InfoView>) -> bool {
    forall|i: int, j: int, a: int, b: int|
        0 <= i < table.len() && 0 <= j < table.len() && i != j && 0 <= a < table[i].file_ext.len()
            && 0 <= b < table[j].file_ext.len() ==> #[trigger] table[i].file_ext[a]
            != #[trigger] table[j].file_ext[b]
}

/// The entry of the built-in table that lists `e`, or -1.
pub open spec fn ext_owner(e: Seq<char>) -> int {
    if e == "bat"@ || e == "cmd"@ {
        0
    } else if e == "c"@ {
        1
    } else if e == "h"@ {
        2
    } else if e == "cpp"@ {
        3
    } else if e == "hpp"@ {
        4
    } else if e == "css"@ || e == "sass"@ || e == "less"@ || e == "scss"@ {
        5
    } else if e == "go"@ {
        6
    } else if e == "gradle"@ {
        7
    } else if e == "html"@ || e == "xhtml"@ || e == "hml"@ {
        8
    } else if e == "hs"@ {
        9
    } else if e == "java"@ {
        10
    } else if e == "js"@ || e == "ejs"@ {
        11
    } else if e == "json"@ {
        12
    } else if e == "jl"@ {
        13
    } else if e == "md"@ {
        14
    } else if e == "php4"@ || e == "php5"@ || e == "php"@ || e == "phtml"@ {
        15
    } else if e == "proto"@ {
        16
    } else if e == "py"@ {
        17
    } else if e == "rs"@ {
        18
    } else if e == "rb"@ {
        19
    } else if e == "scala"@ {
        20
    } else if e == "sh"@ {
        21
    } else if e == "sql"@ {
        22
    } else if e == "toml"@ {
        23
    } else if e == "ts"@ {
        24
    } else if e == "xml"@ {
        25
    } else if e == "yml"@ || e == "yaml"@ {
        26
    } else {
        -1
    }
}

/// The characters of each extension that the built-in table lists.
proof fn lemma_extension_texts()
    ensures
        "bat"@.len() == 3 && "bat"@[0] == 'b' && "bat"@[1] == 'a' && "bat"@[2] == 't',
        "cmd"@.len() == 3 && "cmd"@[0] == 'c' && "cmd"@[1] == 'm' && "cmd"@[2] == 'd',
        "c"@.len() == 1 && "c"@[0] == 'c',
        "h"@.len() == 1 && "h"@[0] == 'h',
        "cpp"@.len() == 3 && "cpp"@[0] == 'c' && "cpp"@[1] == 'p' && "cpp"@[2] == 'p',
        "hpp"@.len() == 3 && "hpp"@[0] == 'h' && "hpp"@[1] == 'p' && "hpp"@[2] == 'p',
        "css"@.len() == 3 && "css"@[0] == 'c' && "css"@[1] == 's' && "css"@[2] == 's',
        "sass"@.len() == 4 && "sass"@[0] == 's' && "sass"@[1] == 'a' && "sass"@[2] == 's' && "sass"@[3] == 's',
        "less"@.len() == 4 && "less"@[0] == 'l' && "less"@[1] == 'e' && "less"@[2] == 's' && "less"@[3] == 's',
        "scss"@.len() == 4 && "scss"@[0] == 's' && "scss"@[1] == 'c' && "scss"@[2] == 's' && "scss"@[3] == 's',
        "go"@.len() == 2 && "go"@[0] == 'g' && "go"@[1] == 'o',
        "gradle"@.len() == 6 && "gradle"@[0] == 'g' && "gradle"@[1] == 'r' && "gradle"@[2] == 'a' && "gradle"@[3] == 'd' && "gradle"@[4] == 'l' && "gradle"@[5] == 'e',
        "html"@.len() == 4 && "html"@[0] == 'h' && "html"@[1] == 't' && "html"@[2] == 'm' && "html"@[3] == 'l',
        "xhtml"@.len() == 5 && "xhtml"@[0] == 'x' && "xhtml"@[1] == 'h' && "xhtml"@[2] == 't' && "xhtml"@[3] == 'm' && "xhtml"@[4] == 'l',
        "hml"@.len() == 3 && "hml"@[0] == 'h' && "hml"@[1] == 'm' && "hml"@[2] == 'l',
        "hs"@.len() == 2 && "hs"@[0] == 'h' && "hs"@[1] == 's',
        "java"@.len() == 4 && "java"@[0] == 'j' && "java"@[1] == 'a' && "java"@[2] == 'v' && "java"@[3] == 'a',
        "js"@.len() == 2 && "js"@[0] == 'j' && "js"@[1] == 's',
        "ejs"@.len() == 3 && "ejs"@[0] == 'e' && "ejs"@[1] == 'j' && "ejs"@[2] == 's',
        "json"@.len() == 4 && "json"@[0] == 'j' && "json"@[1] == 's' && "json"@[2] == 'o' && "json"@[3] == 'n',
        "jl"@.len() == 2 && "jl"@[0] == 'j' && "jl"@[1] == 'l',
        "md"@.len() == 2 && "md"@[0] == 'm' && "md"@[1] == 'd',
        "php4"@.len() == 4 && "php4"@[0] == 'p' && "php4"@[1] == 'h' && "php4"@[2] == 'p' && "php4"@[3] == '4',
        "php5"@.len() == 4 && "php5"@[0] == 'p' && "php5"@[1] == 'h' && "php5"@[2] == 'p' && "php5"@[3] == '5',
        "php"@.len() == 3 && "php"@[0] == 'p' && "php"@[1] == 'h' && "php"@[2] == 'p',
        "phtml"@.len() == 5 && "phtml"@[0] == 'p' && "phtml"@[1] == 'h' && "phtml"@[2] == 't' && "phtml"@[3] == 'm' && "phtml"@[4] == 'l',
        "proto"@.len() == 5 && "proto"@[0] == 'p' && "proto"@[1] == 'r' && "proto"@[2] == 'o' && "proto"@[3] == 't' && "proto"@[4] == 'o',
        "py"@.len() == 2 && "py"@[0] == 'p' && "py"@[1] == 'y',
        "rs"@.len() == 2 && "rs"@[0] == 'r' && "rs"@[1] == 's',
        "rb"@.len() == 2 && "rb"@[0] == 'r' && "rb"@[1] == 'b',
        "scala"@.len() == 5 && "scala"@[0] == 's' && "scala"@[1] == 'c' && "scala"@[2] == 'a' && "scala"@[3] == 'l' && "scala"@[4] == 'a',
        "sh"@.len() == 2 && "sh"@[0] == 's' && "sh"@[1] == 'h',
        "sql"@.len() == 3 && "sql"@[0] == 's' && "sql"@[1] == 'q' && "sql"@[2] == 'l',
        "toml"@.len() == 4 && "toml"@[0] == 't' && "toml"@[1] == 'o' && "toml"@[2] == 'm' && "toml"@[3] == 'l',
        "ts"@.len() == 2 && "ts"@[0] == 't' && "ts"@[1] == 's',
        "xml"@.len() == 3 && "xml"@[0] == 'x' && "xml"@[1] == 'm' && "xml"@[2] == 'l',
        "yml"@.len() == 3 && "yml"@[0] == 'y' && "yml"@[1] == 'm' && "yml"@[2] == 'l',
        "yaml"@.len() == 4 && "yaml"@[0] == 'y' && "yaml"@[1] == 'a' && "yaml"@[2] == 'm' && "yaml"@[3] == 'l',
{
    reveal_strlit("bat");
    reveal_strlit("cmd");
    reveal_strlit("c");
    reveal_strlit("h");
    reveal_strlit("cpp");
    reveal_strlit("hpp");
    reveal_strlit("css");
    reveal_strlit("sass");
    reveal_strlit("less");
    reveal_strlit("scss");
    reveal_strlit("go");
    reveal_strlit("gradle");
    reveal_strlit("html");
    reveal_strlit("xhtml");
    reveal_strlit("hml");
    reveal_strlit("hs");
    reveal_strlit("java");
    reveal_strlit("js");
    reveal_strlit("ejs");
    reveal_strlit("json");
    reveal_strlit("jl");
    reveal_strlit("md");
    reveal_strlit("php4");
    reveal_strlit("php5");
    reveal_strlit("php");
    reveal_strlit("phtml");
    reveal_strlit("proto");
    reveal_strlit("py");
    reveal_strlit("rs");
    reveal_strlit("rb");
    reveal_strlit("scala");
    reveal_strlit("sh");
    reveal_strlit("sql");
    reveal_strlit("toml");
    reveal_strlit("ts");
    reveal_strlit("xml");
    reveal_strlit("yml");
    reveal_strlit("yaml");
    assert("bat"@ =~= seq!['b', 'a', 't']);
    assert("cmd"@ =~= seq!['c', 'm', 'd']);
    assert("c"@ =~= seq!['c']);
    assert("h"@ =~= seq!['h']);
    assert("cpp"@ =~= seq!['c', 'p', 'p']);
    assert("hpp"@ =~= seq!['h', 'p', 'p']);
    assert("css"@ =~= seq!['c', 's', 's']);
    assert("sass"@ =~= seq!['s', 'a', 's', 's']);
    assert("less"@ =~= seq!['l', 'e', 's', 's']);
    assert("scss"@ =~= seq!['s', 'c', 's', 's']);
    assert("go"@ =~= seq!['g', 'o']);
    assert("gradle"@ =~= seq!['g', 'r', 'a', 'd', 'l', 'e']);
    assert("html"@ =~= seq!['h', 't', 'm', 'l']);
    assert("xhtml"@ =~= seq!['x', 'h', 't', 'm', 'l']);
    assert("hml"@ =~= seq!['h', 'm', 'l']);
    assert("hs"@ =~= seq!['h', 's']);
    assert("java"@ =~= seq!['j', 'a', 'v', 'a']);
    assert("js"@ =~= seq!['j', 's']);
    assert("ejs"@ =~= seq!['e', 'j', 's']);
    assert("json"@ =~= seq!['j', 's', 'o', 'n']);
    assert("jl"@ =~= seq!['j', 'l']);
    assert("md"@ =~= seq!['m', 'd']);
    assert("php4"@ =~= seq!['p', 'h', 'p', '4']);
    assert("php5"@ =~= seq!['p', 'h', 'p', '5']);
    assert("php"@ =~= seq!['p', 'h', 'p']);
    assert("phtml"@ =~= seq!['p', 'h', 't', 'm', 'l']);
    assert("proto"@ =~= seq!['p', 'r', 'o', 't', 'o']);
    assert("py"@ =~= seq!['p', 'y']);
    assert("rs"@ =~= seq!['r', 's']);
    assert("rb"@ =~= seq!['r', 'b']);
    assert("scala"@ =~= seq!['s', 'c', 'a', 'l', 'a']);
    assert("sh"@ =~= seq!['s', 'h']);
    assert("sql"@ =~= seq!['s', 'q', 'l']);
    assert("toml"@ =~= seq!['t', 'o', 'm', 'l']);
    assert("ts"@ =~= seq!['t', 's']);
    assert("xml"@ =~= seq!['x', 'm', 'l']);
    assert("yml"@ =~= seq!['y', 'm', 'l']);
    assert("yaml"@ =~= seq!['y', 'a', 'm', 'l']);
}

/// No extension is listed by two languages of the built-in table.
pub proof fn lemma_builtin_unique()
    ensures
        unique_extensions(builtin_table()),
{
    lemma_extension_texts();
    assert(ext_owner("bat"@) == 0);
    assert(ext_owner("cmd"@) == 0);
    assert(ext_owner("c"@) == 1);
    assert(ext_owner("h"@) == 2);
    assert(ext_owner("cpp"@) == 3);
    assert(ext_owner("hpp"@) == 4);
    assert(ext_owner("css"@) == 5);
    assert(ext_owner("sass"@) == 5);
    assert(ext_owner("less"@) == 5);
    assert(ext_owner("scss"@) == 5);
    assert(ext_owner("go"@) == 6);
    assert(ext_owner("gradle"@) == 7);
    assert(ext_owner("html"@) == 8);
    assert(ext_owner("xhtml"@) == 8);
    assert(ext_owner("hml"@) == 8);
    assert(ext_owner("hs"@) == 9);
    assert(ext_owner("java"@) == 10);
    assert(ext_owner("js"@) == 11);
    assert(ext_owner("ejs"@) == 11);
    assert(ext_owner("json"@) == 12);
    assert(ext_owner("jl"@) == 13);
    assert(ext_owner("md"@) == 14);
    assert(ext_owner("php4"@) == 15);
    assert(ext_owner("php5"@) == 15);
    assert(ext_owner("php"@) == 15);
    assert(ext_owner("phtml"@) == 15);
    assert(ext_owner("proto"@) == 16);
    assert(ext_owner("py"@) == 17);
    assert(ext_owner("rs"@) == 18);
    assert(ext_owner("rb"@) == 19);
    assert(ext_owner("scala"@) == 20);
    assert(ext_owner("sh"@) == 21);
    assert(ext_owner("sql"@) == 22);
    assert(ext_owner("toml"@) == 23);
    assert(ext_owner("ts"@) == 24);
    assert(ext_owner("xml"@) == 25);
    assert(ext_owner("yml"@) == 26);
    assert(ext_owner("yaml"@) == 26);
    let t = builtin_table();
    assert forall|i: int, a: int| 0 <= i < t.len() && 0 <= a < t[i].file_ext.len() implies ext_owner(
        #[trigger] t[i].file_ext[a],
    ) == i by {
        if i == 0 {
            assert(t[0].file_ext =~= seq!["bat"@, "cmd"@]);
        } else if i == 1 {
            assert(t[1].file_ext =~= seq!["c"@]);
        } else if i == 2 {
            assert(t[2].file_ext =~= seq!["h"@]);
        } else if i == 3 {
            assert(t[3].file_ext =~= seq!["cpp"@]);
        } else if i == 4 {
            assert(t[4].file_ext =~= seq!["hpp"@]);
        } else if i == 5 {
            assert(t[5].file_ext =~= seq!["css"@, "sass"@, "less"@, "scss"@]);
        } else if i == 6 {
            assert(t[6].file_ext =~= seq!["go"@]);
        } else if i == 7 {
            assert(t[7].file_ext =~= seq!["gradle"@]);
        } else if i == 8 {
            assert(t[8].file_ext =~= seq!["html"@, "xhtml"@, "hml"@]);
        } else if i == 9 {
            assert(t[9].file_ext =~= seq!["hs"@]);
        } else if i == 10 {
            assert(t[10].file_ext =~= seq!["java"@]);
        } else if i == 11 {
            assert(t[11].file_ext =~= seq!["js"@, "ejs"@]);
        } else if i == 12 {
            assert(t[12].file_ext =~= seq!["json"@]);
        } else if i == 13 {
            assert(t[13].file_ext =~= seq!["jl"@]);
        } else if i == 14 {
            assert(t[14].file_ext =~= seq!["md"@]);
        } else if i == 15 {
            assert(t[15].file_ext =~= seq!["php4"@, "php5"@, "php"@, "phtml"@]);
        } else if i == 16 {
            assert(t[16].file_ext =~= seq!["proto"@]);
        } else if i == 17 {
            assert(t[17].file_ext =~= seq!["py"@]);
        } else if i == 18 {
            assert(t[18].file_ext =~= seq!["rs"@]);
        } else if i == 19 {
            assert(t[19].file_ext =~= seq!["rb"@]);
        } else if i == 20 {
            assert(t[20].file_ext =~= seq!["scala"@]);
        } else if i == 21 {
            assert(t[21].file_ext =~= seq!["sh"@]);
        } else if i == 22 {
            assert(t[22].file_ext =~= seq!["sql"@]);
        } else if i == 23 {
            assert(t[23].file_ext =~= seq!["toml"@]);
        } else if i == 24 {
            assert(t[24].file_ext =~= seq!["ts"@]);
        } else if i == 25 {
            assert(t[25].file_ext =~= seq!["xml"@]);
        } else if i == 26 {
            assert(t[26].file_ext =~= seq!["yml"@, "yaml"@]);
        }
    }
}

/// The languages this registry knows, in order.
pub open spec fn builtin_table() -> Seq<InfoView> {
    seq![
        InfoView {
            language: "Bat"@,
            file_ext: seq!["bat"@, "cmd"@],
            single: seq!["@rem"@],
            multi: seq![],
        },
        InfoView {
            language: "C"@,
            file_ext: seq!["c"@],
            single: seq!["//"@],
            multi: seq![("/*"@, "*/"@)],
        },
        InfoView {
            language: "CHeader"@,
            file_ext: seq!["h"@],
            single: seq!["//"@],
            multi: seq![("/*"@, "*/"@)],
        },
        InfoView {
            language: "Cpp"@,
            file_ext: seq!["cpp"@],
            single: seq!["//"@],
            multi: seq![("/*"@, "*/"@)],
        },
        InfoView {
            language: "CppHeader"@,
            file_ext: seq!["hpp"@],
            single: seq!["//"@],
            multi: seq![("/*"@, "*/"@)],
        },
        InfoView {
            language: "CSS"@,
            file_ext: seq!["css"@, "sass"@, "less"@, "scss"@],
            single: seq!["//"@],
            multi: seq![("/*"@, "*/"@)],
        },
        InfoView {
            language: "Go"@,
            file_ext: seq!["go"@],
            single: seq!["//"@],
            multi: seq![("/*"@, "*/"@), ("/**"@, "*/"@)],
        },
        InfoView {
            language: "Gradle"@,
            file_ext: seq!["gradle"@],
            single: seq!["//"@],
            multi: seq![("/*"@, "*/"@), ("/**"@, "*/"@)],
        },
        InfoView {
            language: "Html"@,
            file_ext: seq!["html"@, "xhtml"@, "hml"@],
            single: seq![],
            multi: seq![],
        },
        InfoView {
            language: "Haskell"@,
            file_ext: seq!["hs"@],
            single: seq!["--"@],
            multi: seq![("{-"@, "-}"@)],
        },
        InfoView {
            language: "Java"@,
            file_ext: seq!["java"@],
            single: seq!["//"@],
            multi: seq![("/*"@, "*/"@)],
        },
        InfoView {
            language: "JavaScript"@,
            file_ext: seq!["js"@, "ejs"@],
            single: seq!["//"@],
            multi: seq![("/*"@, "*/"@)],
        },
        InfoView {
            language: "Json"@,
            file_ext: seq!["json"@],
            single: seq![],
            multi: seq![],
        },
        InfoView {
            language: "Julia"@,
            file_ext: seq!["jl"@],
            single: seq!["#"@],
            multi: seq![("#="@, "=#"@)],
        },
        InfoView {
            language: "Markdown"@,
            file_ext: seq!["md"@],
            single: seq![],
            multi: seq![],
        },
        InfoView {
            language: "Php"@,
            file_ext: seq!["php4"@, "php5"@, "php"@, "phtml"@],
            single: seq!["#"@, "//"@],
            multi: seq![("/*"@, "*/"@), ("/**"@, "*/"@)],
        },
        InfoView {
            language: "Protobuf"@,
            file_ext: seq!["proto"@],
            single: seq!["//"@],
            multi: seq![],
        },
        InfoView {
            language: "Python"@,
            file_ext: seq!["py"@],
            single: seq!["#"@],
            multi: seq![("'''"@, "'''"@), ("\""@, "\""@)],
        },
        InfoView {
            language: "Rust"@,
            file_ext: seq!["rs"@],
            single: seq!["//"@, "///"@, "///!"@],
            multi: seq![("/*"@, "*/"@)],
        },
        InfoView {
            language: "Ruby"@,
            file_ext: seq!["rb"@],
            single: seq!["#"@],
            multi: seq![("="@, "="@)],
        },
        InfoView {
            language: "Scala"@,
            file_ext: seq!["scala"@],
            single: seq!["//"@],
            multi: seq![("/*"@, "*/"@)],
        },
        InfoView {
            language: "Shell"@,
            file_ext: seq!["sh"@],
            single: seq!["#"@],
            multi: seq![],
        },
        InfoView {
            language: "Sql"@,
            file_ext: seq!["sql"@],
            single: seq!["#"@, "--"@],
            multi: seq![("/*"@, "*/"@)],
        },
        InfoView {
            language: "Toml"@,
            file_ext: seq!["toml"@],
            single: seq!["#"@],
            multi: seq![],
        },
        InfoView {
            language: "TypeScript"@,
            file_ext: seq!["ts"@],
            single: seq!["//"@],
            multi: seq![("/*"@, "*/"@)],
        },
        InfoView {
            language: "Xml"@,
            file_ext: seq!["xml"@],
            single: seq!["!there is no specific single line comment!"@],
            multi: seq![("<!--"@, "-->"@), ("<![CDATA["@, "]]>"@)],
        },
        InfoView {
            language: "Yaml"@,
            file_ext: seq!["yml"@, "yaml"@],
            single: seq!["#"@],
            multi: seq![],
        },
    ]
}

/// The read-only registry of languages, consulted by file extension. The
/// built-in one lists each extension under one language at most
/// (`unique_extensions`); a table built otherwise should too, or the first
/// language that lists an extension is the one it selects.
#[derive(Debug, Clone)]
pub struct Config {
    pub languages: Vec<Info>,
}

impl View for Config {
    type V = Seq<InfoView>;

    open spec fn view(&self) -> Seq<InfoView> {
        self.languages@.map_values(|i: Info| i@)
    }
}

impl Config {
    /// The profile of the language that the extension `ext` selects; none
    /// where there is no extension or no language lists it.
    pub fn get_by_extension(&self, ext: Option<&str>) -> (r: Option<&Info>)
        ensures
            ext is None ==> r is None,
            ext is Some ==> match lookup(self@, ext->0@) {
                None => r is None,
                Some(p) => r is Some && r->0@ == p,
            },
            ext is Some ==> r == match lookup_info(self.languages@, ext->0@) {
                Some(i) => Some(&i),
                None => None::<&Info>,
            },
            ext is Some && r is Some && unique_extensions(self@) ==> forall|k: int|
                0 <= k < self@.len() && (#[trigger] self@[k]).file_ext.contains(ext->0@) ==> self@[k]
                    == r->0@,
    {
        let e = match ext {
            None => return None,
            Some(e) => e,
        };
        let mut i: usize = 0;
        while i < self.languages.len()
            invariant
                i <= self.languages.len(),
                ext == Some(e),
                lookup(self@, e@) == lookup_from(self@, e@, i as int),
                lookup_info(self.languages@, e@) == lookup_info_from(self.languages@, e@, i as int),
            decreases self.languages.len() - i,
        {
            assert(self@[i as int] == self.languages@[i as int]@);
            if self.languages[i].has_extension(e) {
                proof {
                    if unique_extensions(self@) {
                        assert forall|k: int|
                            0 <= k < self@.len() && (#[trigger] self@[k]).file_ext.contains(e@) implies k
                            == i by {
                            let a = choose|a: int| 0 <= a < self@[k].file_ext.len() && self@[k].file_ext[a] == e@;
                            let b = choose|b: int| 0 <= b < self@[i as int].file_ext.len() && self@[i as int].file_ext[b] == e@;
                            assert(self@[k].file_ext[a] == self@[i as int].file_ext[b]);
                        }
                    }
                }
                return Some(&self.languages[i]);
            }
            i = i + 1;
        }
        None
    }
}

impl Default for Config {
    /// The built-in table of languages.
    fn default() -> (r: Self)
        ensures
            r@ == builtin_table(),
            unique_extensions(r@),
    {
        proof {
            lemma_builtin_unique();
        }
        let mut languages: Vec<Info> = Vec::new();
        let info = Info::new("Bat", vec!["bat", "cmd"], vec!["@rem"], vec![]);
        assert(info@.file_ext =~= seq!["bat"@, "cmd"@]);
        assert(info@.single =~= seq!["@rem"@]);
        assert(info@.multi =~= seq![]);
        languages.push(info);
        let info = Info::new("C", vec!["c"], vec!["//"], vec![("/*", "*/")]);
        assert(info@.file_ext =~= seq!["c"@]);
        assert(info@.single =~= seq!["//"@]);
        assert(info@.multi =~= seq![("/*"@, "*/"@)]);
        languages.push(info);
        let info = Info::new("CHeader", vec!["h"], vec!["//"], vec![("/*", "*/")]);
        assert(info@.file_ext =~= seq!["h"@]);
        assert(info@.single =~= seq!["//"@]);
        assert(info@.multi =~= seq![("/*"@, "*/"@)]);
        languages.push(info);
        let info = Info::new("Cpp", vec!["cpp"], vec!["//"], vec![("/*", "*/")]);
        assert(info@.file_ext =~= seq!["cpp"@]);
        assert(info@.single =~= seq!["//"@]);
        assert(info@.multi =~= seq![("/*"@, "*/"@)]);
        languages.push(info);
        let info = Info::new("CppHeader", vec!["hpp"], vec!["//"], vec![("/*", "*/")]);
        assert(info@.file_ext =~= seq!["hpp"@]);
        assert(info@.single =~= seq!["//"@]);
        assert(info@.multi =~= seq![("/*"@, "*/"@)]);
        languages.push(info);
        let info = Info::new("CSS", vec!["css", "sass", "less", "scss"], vec!["//"], vec![("/*", "*/")]);
        assert(info@.file_ext =~= seq!["css"@, "sass"@, "less"@, "scss"@]);
        assert(info@.single =~= seq!["//"@]);
        assert(info@.multi =~= seq![("/*"@, "*/"@)]);
        languages.push(info);
        let info = Info::new("Go", vec!["go"], vec!["//"], vec![("/*", "*/"), ("/**", "*/")]);
        assert(info@.file_ext =~= seq!["go"@]);
        assert(info@.single =~= seq!["//"@]);
        assert(info@.multi =~= seq![("/*"@, "*/"@), ("/**"@, "*/"@)]);
        languages.push(info);
        let info = Info::new("Gradle", vec!["gradle"], vec!["//"], vec![("/*", "*/"), ("/**", "*/")]);
        assert(info@.file_ext =~= seq!["gradle"@]);
        assert(info@.single =~= seq!["//"@]);
        assert(info@.multi =~= seq![("/*"@, "*/"@), ("/**"@, "*/"@)]);
        languages.push(info);
        let info = Info::new("Html", vec!["html", "xhtml", "hml"], vec![], vec![]);
        assert(info@.file_ext =~= seq!["html"@, "xhtml"@, "hml"@]);
        assert(info@.single =~= seq![]);
        assert(info@.multi =~= seq![]);
        languages.push(info);
        let info = Info::new("Haskell", vec!["hs"], vec!["--"], vec![("{-", "-}")]);
        assert(info@.file_ext =~= seq!["hs"@]);
        assert(info@.single =~= seq!["--"@]);
        assert(info@.multi =~= seq![("{-"@, "-}"@)]);
        languages.push(info);
        let info = Info::new("Java", vec!["java"], vec!["//"], vec![("/*", "*/")]);
        assert(info@.file_ext =~= seq!["java"@]);
        assert(info@.single =~= seq!["//"@]);
        assert(info@.multi =~= seq![("/*"@, "*/"@)]);
        languages.push(info);
        let info = Info::new("JavaScript", vec!["js", "ejs"], vec!["//"], vec![("/*", "*/")]);
        assert(info@.file_ext =~= seq!["js"@, "ejs"@]);
        assert(info@.single =~= seq!["//"@]);
        assert(info@.multi =~= seq![("/*"@, "*/"@)]);
        languages.push(info);
        let info = Info::new("Json", vec!["json"], vec![], vec![]);
        assert(info@.file_ext =~= seq!["json"@]);
        assert(info@.single =~= seq![]);
        assert(info@.multi =~= seq![]);
        languages.push(info);
        let info = Info::new("Julia", vec!["jl"], vec!["#"], vec![("#=", "=#")]);
        assert(info@.file_ext =~= seq!["jl"@]);
        assert(info@.single =~= seq!["#"@]);
        assert(info@.multi =~= seq![("#="@, "=#"@)]);
        languages.push(info);
        let info = Info::new("Markdown", vec!["md"], vec![], vec![]);
        assert(info@.file_ext =~= seq!["md"@]);
        assert(info@.single =~= seq![]);
        assert(info@.multi =~= seq![]);
        languages.push(info);
        let info = Info::new("Php", vec!["php4", "php5", "php", "phtml"], vec!["#", "//"], vec![("/*", "*/"), ("/**", "*/")]);
        assert(info@.file_ext =~= seq!["php4"@, "php5"@, "php"@, "phtml"@]);
        assert(info@.single =~= seq!["#"@, "//"@]);
        assert(info@.multi =~= seq![("/*"@, "*/"@), ("/**"@, "*/"@)]);
        languages.push(info);
        let info = Info::new("Protobuf", vec!["proto"], vec!["//"], vec![]);
        assert(info@.file_ext =~= seq!["proto"@]);
        assert(info@.single =~= seq!["//"@]);
        assert(info@.multi =~= seq![]);
        languages.push(info);
        let info = Info::new("Python", vec!["py"], vec!["#"], vec![("'''", "'''"), ("\"", "\"")]);
        assert(info@.file_ext =~= seq!["py"@]);
        assert(info@.single =~= seq!["#"@]);
        assert(info@.multi =~= seq![("'''"@, "'''"@), ("\""@, "\""@)]);
        languages.push(info);
        let info = Info::new("Rust", vec!["rs"], vec!["//", "///", "///!"], vec![("/*", "*/")]);
        assert(info@.file_ext =~= seq!["rs"@]);
        assert(info@.single =~= seq!["//"@, "///"@, "///!"@]);
        assert(info@.multi =~= seq![("/*"@, "*/"@)]);
        languages.push(info);
        let info = Info::new("Ruby", vec!["rb"], vec!["#"], vec![("=", "=")]);
        assert(info@.file_ext =~= seq!["rb"@]);
        assert(info@.single =~= seq!["#"@]);
        assert(info@.multi =~= seq![("="@, "="@)]);
        languages.push(info);
        let info = Info::new("Scala", vec!["scala"], vec!["//"], vec![("/*", "*/")]);
        assert(info@.file_ext =~= seq!["scala"@]);
        assert(info@.single =~= seq!["//"@]);
        assert(info@.multi =~= seq![("/*"@, "*/"@)]);
        languages.push(info);
        let info = Info::new("Shell", vec!["sh"], vec!["#"], vec![]);
        assert(info@.file_ext =~= seq!["sh"@]);
        assert(info@.single =~= seq!["#"@]);
        assert(info@.multi =~= seq![]);
        languages.push(info);
        let info = Info::new("Sql", vec!["sql"], vec!["#", "--"], vec![("/*", "*/")]);
        assert(info@.file_ext =~= seq!["sql"@]);
        assert(info@.single =~= seq!["#"@, "--"@]);
        assert(info@.multi =~= seq![("/*"@, "*/"@)]);
        languages.push(info);
        let info = Info::new("Toml", vec!["toml"], vec!["#"], vec![]);
        assert(info@.file_ext =~= seq!["toml"@]);
        assert(info@.single =~= seq!["#"@]);
        assert(info@.multi =~= seq![]);
        languages.push(info);
        let info = Info::new("TypeScript", vec!["ts"], vec!["//"], vec![("/*", "*/")]);
        assert(info@.file_ext =~= seq!["ts"@]);
        assert(info@.single =~= seq!["//"@]);
        assert(info@.multi =~= seq![("/*"@, "*/"@)]);
        languages.push(info);
        let info = Info::new("Xml", vec!["xml"], vec!["!there is no specific single line comment!"], vec![("<!--", "-->"), ("<![CDATA[", "]]>")]);
        assert(info@.file_ext =~= seq!["xml"@]);
        assert(info@.single =~= seq!["!there is no specific single line comment!"@]);
        assert(info@.multi =~= seq![("<!--"@, "-->"@), ("<![CDATA["@, "]]>"@)]);
        languages.push(info);
        let info = Info::new("Yaml", vec!["yml", "yaml"], vec!["#"], vec![]);
        assert(info@.file_ext =~= seq!["yml"@, "yaml"@]);
        assert(info@.single =~= seq!["#"@]);
        assert(info@.multi =~= seq![]);
        languages.push(info);
        let r = Config { languages };
        assert(r@ =~= builtin_table());
        r
    }
}

} // verus!
