//! Building a table of recipes from recipe sources: a code point in hexadecimal, a
//! name, and one call expression per command.
use vstd::prelude::*;
use vstd::string::StrSliceExecFns;

use crate::recipe::{specs_of, Recipe};
use crate::translator::{build_command, translate_command, CommandRecipe, CommandSpec, Expr, TranslateError};

verus! {

/// The value of a hexadecimal digit.
pub open spec fn hex_digit(c: char) -> Option<int> {
    if '0' <= c && c <= '9' {
        Some(c as int - '0' as int)
    } else if 'a' <= c && c <= 'f' {
        Some(c as int - 'a' as int + 10)
    } else if 'A' <= c && c <= 'F' {
        Some(c as int - 'A' as int + 10)
    } else {
        None
    }
}

/// The value of the first `n` characters of `s` read as hexadecimal digits.
pub open spec fn hex_prefix(s: Seq<char>, n: int) -> Option<int>
    decreases n,
{
    if n <= 0 {
        Some(0)
    } else {
        match (hex_prefix(s, n - 1), hex_digit(s[n - 1])) {
            (Some(v), Some(d)) => Some(v * 16 + d),
            _ => None,
        }
    }
}

/// The code point a non-empty string of hexadecimal digits denotes, where it fits in
/// 32 bits.
pub open spec fn code_point_of(s: Seq<char>) -> Option<u32> {
    if s.len() == 0 {
        None
    } else {
        match hex_prefix(s, s.len() as int) {
            Some(v) => if v <= u32::MAX {
                Some(v as u32)
            } else {
                None
            },
            None => None,
        }
    }
}

proof fn lemma_hex_prefix_grows(s: Seq<char>, k: int, n: int)
    requires
        0 <= k <= n <= s.len(),
        hex_prefix(s, n) is Some,
    ensures
        hex_prefix(s, k) is Some,
        0 <= hex_prefix(s, k)->Some_0 <= hex_prefix(s, n)->Some_0,
    decreases n - k,
{
    if k < n {
        lemma_hex_prefix_grows(s, k, n - 1);
        lemma_hex_prefix_grows(s, n - 1, n - 1);
    } else {
        lemma_hex_prefix_nonneg(s, n);
    }
}

proof fn lemma_hex_prefix_nonneg(s: Seq<char>, n: int)
    ensures
        hex_prefix(s, n) matches Some(v) ==> v >= 0,
    decreases n,
{
    if n > 0 {
        lemma_hex_prefix_nonneg(s, n - 1);
    }
}

fn digit_value(c: char) -> (r: Option<u64>)
    ensures
        match hex_digit(c) {
            Some(d) => r == Some(d as u64),
            None => r is None,
        },
{
    if '0' <= c && c <= '9' {
        Some((c as u64) - ('0' as u64))
    } else if 'a' <= c && c <= 'f' {
        Some((c as u64) - ('a' as u64) + 10)
    } else if 'A' <= c && c <= 'F' {
        Some((c as u64) - ('A' as u64) + 10)
    } else {
        None
    }
}

/// Reads a code point written in hexadecimal.
pub fn parse_code_point(s: &String) -> (r: Option<u32>)
    ensures
        r == code_point_of(s@),
{
    let text = s.as_str();
    let n = text.unicode_len();
    if n == 0 {
        return None;
    }
    let mut acc: u64 = 0;
    let mut i: usize = 0;
    while i < n
        invariant
            n == s@.len(),
            text@ == s@,
            i <= n,
            hex_prefix(s@, i as int) == Some(acc as int),
            acc <= u32::MAX,
        decreases n - i,
    {
        let d = match digit_value(text.get_char(i)) {
            Some(d) => d,
            None => {
                proof {
                    assert(hex_prefix(s@, i + 1) is None);
                    lemma_hex_prefix_none_stays(s@, i + 1, n as int);
                }
                return None;
            },
        };
        acc = acc * 16 + d;
        i += 1;
        if acc > 0xFFFF_FFFF {
            proof {
                if hex_prefix(s@, n as int) is Some {
                    lemma_hex_prefix_grows(s@, i as int, n as int);
                }
            }
            return None;
        }
    }
    Some(acc as u32)
}

proof fn lemma_hex_prefix_none_stays(s: Seq<char>, k: int, n: int)
    requires
        0 <= k <= n,
        hex_prefix(s, k) is None,
    ensures
        hex_prefix(s, n) is None,
    decreases n - k,
{
    if n > k {
        lemma_hex_prefix_none_stays(s, k, n - 1);
    }
}

/// One entry of a recipe catalogue, before translation.
#[derive(Debug)]
pub struct RecipeSource {
    /// The code point, in hexadecimal.
    pub code: String,
    pub name: String,
    pub commands: Vec<Expr>,
}

/// Why a recipe catalogue could not be built.
#[derive(Clone, Debug, PartialEq, Eq)]
pub enum TableError {
    /// A code point that is not hexadecimal or does not fit in 32 bits.
    BadCodePoint(String),
    /// A second recipe for a code point.
    DuplicateCodePoint(u32),
    /// A command of the recipe for the code point that could not be translated.
    Command(u32, TranslateError),
}

/// The translation of the first `n` command expressions.
pub open spec fn translate_commands(es: Seq<Expr>, n: int) -> Result<Seq<CommandSpec>, TranslateError>
    decreases n,
{
    if n <= 0 {
        Ok(Seq::empty())
    } else {
        match translate_commands(es, n - 1) {
            Err(x) => Err(x),
            Ok(cs) => match translate_command(es[n - 1]) {
                Err(x) => Err(x),
                Ok(c) => Ok(cs.push(c)),
            },
        }
    }
}

proof fn lemma_commands_error_stays(es: Seq<Expr>, k: int, n: int)
    requires
        0 <= k <= n,
        translate_commands(es, k) is Err,
    ensures
        translate_commands(es, n) == translate_commands(es, k),
    decreases n - k,
{
    if n > k {
        lemma_commands_error_stays(es, k, n - 1);
    }
}

/// A translated recipe: its code point, its name and its commands.
pub type RecipeSpec = (u32, Seq<char>, Seq<CommandSpec>);

/// The translation of one recipe source.
pub open spec fn translate_recipe_spec(src: RecipeSource) -> Result<RecipeSpec, TableError> {
    match code_point_of(src.code@) {
        None => Err(TableError::BadCodePoint(src.code)),
        Some(c) => match translate_commands(src.commands@, src.commands@.len() as int) {
            Err(x) => Err(TableError::Command(c, x)),
            Ok(cs) => Ok((c, src.name@, cs)),
        },
    }
}

/// Translates every command of a recipe source; any failure fails the recipe.
pub fn translate_recipe(src: &RecipeSource) -> (r: Result<Recipe, TableError>)
    ensures
        match translate_recipe_spec(*src) {
            Ok(x) => r matches Ok(rec) && rec.c == x.0 && rec.name@ == x.1 && specs_of(rec.commands@)
                == x.2,
            Err(e) => r matches Err(y) && y == e,
        },
{
    let c = match parse_code_point(&src.code) {
        Some(c) => c,
        None => {
            return Err(TableError::BadCodePoint(src.code.clone()));
        },
    };
    let mut commands: Vec<CommandRecipe> = Vec::new();
    assert(specs_of(commands@) =~= Seq::<CommandSpec>::empty());
    let mut i: usize = 0;
    while i < src.commands.len()
        invariant
            i <= src.commands@.len(),
            code_point_of(src.code@) == Some(c),
            translate_commands(src.commands@, i as int) == Ok::<Seq<CommandSpec>, TranslateError>(
                specs_of(commands@),
            ),
        decreases src.commands@.len() - i,
    {
        match build_command(&src.commands[i]) {
            Ok(cmd) => {
                let ghost before = commands@;
                commands.push(cmd);
                assert(specs_of(commands@) =~= specs_of(before).push(cmd.spec()));
            },
            Err(x) => {
                proof {
                    assert(translate_commands(src.commands@, i + 1) == Err::<Seq<CommandSpec>, TranslateError>(x));
                    lemma_commands_error_stays(src.commands@, i + 1, src.commands@.len() as int);
                }
                return Err(TableError::Command(c, x));
            },
        }
        i += 1;
    }
    Ok(Recipe { c, name: src.name.clone(), commands })
}

/// The translation of the first `n` recipe sources, where every one translates and no
/// code point repeats.
pub open spec fn table_spec(srcs: Seq<RecipeSource>, n: int) -> Result<Seq<RecipeSpec>, TableError>
    decreases n,
{
    if n <= 0 {
        Ok(Seq::empty())
    } else {
        match table_spec(srcs, n - 1) {
            Err(x) => Err(x),
            Ok(t) => match translate_recipe_spec(srcs[n - 1]) {
                Err(x) => Err(x),
                Ok(r) => if exists|j: int| 0 <= j < t.len() && (#[trigger] t[j]).0 == r.0 {
                    Err(TableError::DuplicateCodePoint(r.0))
                } else {
                    Ok(t.push(r))
                },
            },
        }
    }
}

proof fn lemma_table_error_stays(srcs: Seq<RecipeSource>, k: int, n: int)
    requires
        0 <= k <= n,
        table_spec(srcs, k) is Err,
    ensures
        table_spec(srcs, n) == table_spec(srcs, k),
    decreases n - k,
{
    if n > k {
        lemma_table_error_stays(srcs, k, n - 1);
    }
}

/// The code point, the name and the translated commands of each recipe.
pub open spec fn table_view(t: Seq<Recipe>) -> Seq<RecipeSpec> {
    t.map_values(|r: Recipe| (r.c, r.name@, specs_of(r.commands@)))
}

/// Translates a whole catalogue; the first failure, or the first repeated code point,
/// fails it.
pub fn build_table(srcs: &Vec<RecipeSource>) -> (r: Result<Vec<Recipe>, TableError>)
    ensures
        match table_spec(srcs@, srcs@.len() as int) {
            Ok(t) => r matches Ok(v) && table_view(v@) == t,
            Err(e) => r matches Err(y) && y == e,
        },
{
    let mut table: Vec<Recipe> = Vec::new();
    assert(table_view(table@) =~= Seq::<RecipeSpec>::empty());
    let mut i: usize = 0;
    while i < srcs.len()
        invariant
            i <= srcs@.len(),
            table_spec(srcs@, i as int) == Ok::<Seq<RecipeSpec>, TableError>(table_view(table@)),
        decreases srcs@.len() - i,
    {
        let ghost t = table_view(table@);
        match translate_recipe(&srcs[i]) {
            Ok(rec) => {
                assert(translate_recipe_spec(srcs@[i as int]) == Ok::<RecipeSpec, TableError>((rec.c, rec.name@, specs_of(rec.commands@))));
                let mut j: usize = 0;
                while j < table.len()
                    invariant
                        j <= table@.len(),
                        i < srcs@.len(),
                        t == table_view(table@),
                        table_spec(srcs@, i as int) == Ok::<Seq<RecipeSpec>, TableError>(t),
                        translate_recipe_spec(srcs@[i as int]) == Ok::<RecipeSpec, TableError>((rec.c, rec.name@, specs_of(rec.commands@))),
                        forall|k: int| 0 <= k < j ==> (#[trigger] t[k]).0 != rec.c,
                    decreases table@.len() - j,
                {
                    if table[j].c == rec.c {
                        proof {
                            assert(t[j as int].0 == rec.c);
                            assert(table_spec(srcs@, i + 1) == Err::<Seq<RecipeSpec>, TableError>(
                                TableError::DuplicateCodePoint(rec.c),
                            ));
                            lemma_table_error_stays(srcs@, i + 1, srcs@.len() as int);
                        }
                        return Err(TableError::DuplicateCodePoint(rec.c));
                    }
                    j += 1;
                }
                let ghost entry = (rec.c, rec.name@, specs_of(rec.commands@));
                table.push(rec);
                assert(table_view(table@) =~= t.push(entry));
            },
            Err(x) => {
                proof {
                    assert(table_spec(srcs@, i + 1) == Err::<Seq<RecipeSpec>, TableError>(x));
                    lemma_table_error_stays(srcs@, i + 1, srcs@.len() as int);
                }
                return Err(x);
            },
        }
        i += 1;
    }
    Ok(table)
}

} // verus!
