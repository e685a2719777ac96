//! The candidate characters a drop's body is drawn from: four fixed
//! categories (digits, punctuation, half-width katakana and a few extras)
//! flattened into one selection pool. Larger categories are proportionally
//! more likely to be picked, which is intentional.

use vstd::prelude::*;
use crate::sampling::random_range_usize;

verus! {

/// The flattened selection pool: the concatenation of the digit,
/// punctuation, katakana and extra categories, in that order.
pub open spec fn pool_chars() -> Seq<char> {
    seq![
        '0', '1', '2', '3', '4', '5', '7', '8',
        '9', ':', '.', '"', '=', '*', '+', '-',
        '<', '>', 'ﾊ', 'ﾐ', 'ﾋ', 'ｰ', 'ｳ', 'ｼ',
        'ﾅ', 'ﾓ', 'ﾆ', 'ｻ', 'ﾜ', 'ﾂ', 'ｵ', 'ﾘ',
        'ｱ', 'ﾎ', 'ﾃ', 'ﾏ', 'ｹ', 'ﾒ', 'ｴ', 'ｶ',
        'ｷ', 'ﾑ', 'ﾕ', 'ﾗ', 'ｾ', 'ﾈ', 'ｽ', 'ﾀ',
        'ﾇ', 'ﾍ', '¦', 'ç', 'ﾘ', 'ｸ',
    ]
}

/// The read-only pool of candidate characters, built once at process start
/// and shared by every component that draws characters.
pub struct CharacterPool {
    pub chars: Vec<char>,
}

impl CharacterPool {
    /// A usable pool holds exactly the flattened category characters.
    pub open spec fn wf(self) -> bool {
        self.chars@ == pool_chars()
    }

    /// Builds the pool from the fixed category contents.
    #[verifier::rlimit(60)]
    pub fn new() -> (r: CharacterPool)
        ensures
            r.wf(),
    {
        let mut v: Vec<char> = Vec::new();
        v.push('0');
        v.push('1');
        v.push('2');
        v.push('3');
        v.push('4');
        v.push('5');
        v.push('7');
        v.push('8');
        v.push('9');
        v.push(':');
        v.push('.');
        v.push('"');
        v.push('=');
        v.push('*');
        v.push('+');
        v.push('-');
        v.push('<');
        v.push('>');
        v.push('ﾊ');
        v.push('ﾐ');
        v.push('ﾋ');
        v.push('ｰ');
        v.push('ｳ');
        v.push('ｼ');
        v.push('ﾅ');
        v.push('ﾓ');
        v.push('ﾆ');
        v.push('ｻ');
        v.push('ﾜ');
        v.push('ﾂ');
        v.push('ｵ');
        v.push('ﾘ');
        v.push('ｱ');
        v.push('ﾎ');
        v.push('ﾃ');
        v.push('ﾏ');
        v.push('ｹ');
        v.push('ﾒ');
        v.push('ｴ');
        v.push('ｶ');
        v.push('ｷ');
        v.push('ﾑ');
        v.push('ﾕ');
        v.push('ﾗ');
        v.push('ｾ');
        v.push('ﾈ');
        v.push('ｽ');
        v.push('ﾀ');
        v.push('ﾇ');
        v.push('ﾍ');
        v.push('¦');
        v.push('ç');
        v.push('ﾘ');
        v.push('ｸ');
        proof {
            assert(v@ =~= pool_chars());
        }
        CharacterPool { chars: v }
    }

    /// Draws one character uniformly from the flattened pool.
    pub fn random_character(&self, rng: &mut rand::rngs::ThreadRng) -> (r: char)
        requires
            self.wf(),
        ensures
            pool_chars().contains(r),
    {
        let i = random_range_usize(rng, 0, self.chars.len() - 1);
        let c = self.chars[i];
        proof {
            assert(pool_chars()[i as int] == c);
        }
        c
    }
}

} // verus!
