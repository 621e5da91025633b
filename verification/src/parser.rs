//! Pure line-parsing helpers: digit and character grids, and the grouping of
//! line sequences into fixed-size blocks.  Opening and reading files is left
//! to callers; these functions work on values already in memory.

use vstd::prelude::*;
use vstd::string::StrSliceExecFns;
use vstd::arithmetic::div_mod::lemma_fundamental_div_mod_converse;
use vstd::arithmetic::mul::{lemma_mul_basics, lemma_mul_is_distributive_add_other_way};

verus! {

/// The decimal value of a character, or nothing when the character is not an
/// ASCII digit.
pub open spec fn spec_digit_value(c: char) -> Option<u32> {
    if '0' <= c && c <= '9' {
        Some((c as u32 - '0' as u32) as u32)
    } else {
        None
    }
}

/// Parses a string into a vector of digits.
///
/// Returns the decimal value of every character, or nothing as soon as any
/// character is not an ASCII digit.
pub fn parse_digits_grid_line(line: &str) -> (r: Option<Vec<u32>>)
    ensures
        r is Some <==> (forall|i: int|
            0 <= i < line@.len() ==> #[trigger] spec_digit_value(line@[i]) is Some),
        r is Some ==> r->0@.len() == line@.len() && (forall|i: int|
            0 <= i < line@.len() ==> r->0@[i] == #[trigger] spec_digit_value(line@[i])->0),
{
    let n = line.unicode_len();
    let mut digits: Vec<u32> = Vec::new();
    let mut i: usize = 0;
    while i < n
        invariant
            i <= n,
            n == line@.len(),
            digits@.len() == i,
            forall|k: int| 0 <= k < i ==> #[trigger] spec_digit_value(line@[k]) is Some,
            forall|k: int| 0 <= k < i ==> digits@[k] == #[trigger] spec_digit_value(line@[k])->0,
        decreases n - i,
    {
        let c = line.get_char(i);
        if c < '0' || c > '9' {
            proof {
                assert(spec_digit_value(line@[i as int]) is None);
            }
            return None;
        }
        digits.push(c as u32 - '0' as u32);
        i = i + 1;
    }
    Some(digits)
}

/// Parses a string into a vector of its characters.
pub fn parse_chars_grid_line(line: &str) -> (r: Vec<char>)
    ensures
        r@ == line@,
{
    let n = line.unicode_len();
    let mut chars: Vec<char> = Vec::new();
    let mut i: usize = 0;
    while i < n
        invariant
            i <= n,
            n == line@.len(),
            chars@ == line@.subrange(0, i as int),
        decreases n - i,
    {
        let c = line.get_char(i);
        chars.push(c);
        proof {
            assert(chars@ =~= line@.subrange(0, i + 1));
        }
        i = i + 1;
    }
    proof {
        assert(chars@ =~= line@);
    }
    chars
}

/// Groups consecutive lines into blocks of exactly `lines_per_block` lines.
///
/// A trailing group shorter than `lines_per_block` is dropped.  With a block
/// size of zero no block is ever completed, so the result is empty.
pub fn group_lines_into_blocks(lines: &Vec<String>, lines_per_block: usize) -> (r: Vec<Vec<String>>)
    ensures
        lines_per_block == 0 ==> r@.len() == 0,
        lines_per_block > 0 ==> r@.len() == lines@.len() as int / lines_per_block as int,
        forall|b: int| 0 <= b < r@.len() ==> #[trigger] r@[b]@.len() == lines_per_block,
        forall|b: int, j: int|
            0 <= b < r@.len() && 0 <= j < lines_per_block ==> #[trigger] r@[b]@[j]@ == lines@[b * (
            lines_per_block as int) + j]@,
{
    let mut result: Vec<Vec<String>> = Vec::new();
    if lines_per_block == 0 {
        return result;
    }
    let ghost size = lines_per_block as int;
    let mut block: Vec<String> = Vec::new();
    let mut idx: usize = 0;
    proof {
        lemma_mul_basics(size);
    }
    while idx < lines.len()
        invariant
            idx <= lines@.len(),
            lines_per_block > 0,
            size == lines_per_block as int,
            block@.len() < lines_per_block,
            idx == result@.len() * size + block@.len(),
            forall|b: int| 0 <= b < result@.len() ==> #[trigger] result@[b]@.len() == size,
            forall|b: int, j: int|
                0 <= b < result@.len() && 0 <= j < size ==> #[trigger] result@[b]@[j]@ == lines@[b
                    * size + j]@,
            forall|j: int|
                0 <= j < block@.len() ==> #[trigger] block@[j]@ == lines@[result@.len() * size
                    + j]@,
        decreases lines@.len() - idx,
    {
        block.push(lines[idx].clone());
        idx = idx + 1;
        if block.len() == lines_per_block {
            proof {
                lemma_mul_is_distributive_add_other_way(size, result@.len() as int, 1);
            }
            result.push(block);
            block = Vec::new();
        }
    }
    proof {
        lemma_fundamental_div_mod_converse(
            lines@.len() as int,
            size,
            result@.len() as int,
            block@.len() as int,
        );
    }
    result
}

/// Groups lines into blocks of exactly `lines_per_block` lines, skipping
/// `separator_lines_between_block` lines after each completed block.
///
/// A trailing group shorter than `lines_per_block` is dropped.  With a block
/// size of zero no block is ever completed, so the result is empty.
pub fn group_lines_into_blocks_with_separator(
    lines: &Vec<String>,
    lines_per_block: usize,
    separator_lines_between_block: usize,
) -> (r: Vec<Vec<String>>)
    ensures
        lines_per_block == 0 ==> r@.len() == 0,
        lines_per_block > 0 ==> r@.len() == (lines@.len() + separator_lines_between_block) as int
            / (lines_per_block + separator_lines_between_block) as int,
        forall|b: int| 0 <= b < r@.len() ==> #[trigger] r@[b]@.len() == lines_per_block,
        forall|b: int, j: int|
            0 <= b < r@.len() && 0 <= j < lines_per_block ==> #[trigger] r@[b]@[j]@ == lines@[b * (
            lines_per_block + separator_lines_between_block) as int + j]@,
{
    let mut result: Vec<Vec<String>> = Vec::new();
    if lines_per_block == 0 {
        return result;
    }
    let ghost size = lines_per_block as int;
    let ghost sep = separator_lines_between_block as int;
    let ghost period = size + sep;
    let mut block: Vec<String> = Vec::new();
    let mut lines_to_ignore: usize = 0;
    let mut idx: usize = 0;
    proof {
        lemma_mul_basics(period);
    }
    while idx < lines.len()
        invariant
            idx <= lines@.len(),
            lines_per_block > 0,
            size == lines_per_block as int,
            sep == separator_lines_between_block as int,
            period == size + sep,
            block@.len() < lines_per_block,
            lines_to_ignore <= separator_lines_between_block,
            lines_to_ignore > 0 ==> block@.len() == 0 && result@.len() > 0 && idx == result@.len()
                * period - lines_to_ignore,
            lines_to_ignore == 0 ==> idx == result@.len() * period + block@.len(),
            forall|b: int| 0 <= b < result@.len() ==> #[trigger] result@[b]@.len() == size,
            forall|b: int, j: int|
                0 <= b < result@.len() && 0 <= j < size ==> #[trigger] result@[b]@[j]@ == lines@[b
                    * period + j]@,
            forall|j: int|
                0 <= j < block@.len() ==> #[trigger] block@[j]@ == lines@[result@.len() * period
                    + j]@,
        decreases lines@.len() - idx,
    {
        if lines_to_ignore > 0 {
            lines_to_ignore = lines_to_ignore - 1;
            idx = idx + 1;
            continue ;
        }
        block.push(lines[idx].clone());
        idx = idx + 1;
        if block.len() == lines_per_block {
            proof {
                lemma_mul_is_distributive_add_other_way(period, result@.len() as int, 1);
            }
            result.push(block);
            block = Vec::new();
            lines_to_ignore = separator_lines_between_block;
        }
    }
    proof {
        let n = lines@.len() as int;
        let emitted = result@.len() as int;
        if lines_to_ignore > 0 {
            lemma_fundamental_div_mod_converse(
                n + sep,
                period,
                emitted,
                sep - lines_to_ignore,
            );
        } else {
            lemma_fundamental_div_mod_converse(
                n + sep,
                period,
                emitted,
                block@.len() + sep,
            );
        }
    }
    result
}

} // verus!
