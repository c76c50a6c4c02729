//! Work-in-progress trackers: the mapping from a progress percentage to
//! the tracker's stage, label, colour, and rendered progress bar.

use vstd::prelude::*;

verus! {

/// One tracked work-in-progress entry, as the persistence layer stores
/// it.  `state` runs from 1 to 6.
pub struct WipEntry {
    pub title: String,
    pub channel_id: u64,
    pub description: String,
    pub message_id: u64,
    pub image: String,
    pub state: u8,
}

/// The stored stage for a progress percentage.
pub open spec fn spec_state_from_percent(percent: u8) -> u8 {
    if percent <= 9 {
        1
    } else if percent <= 29 {
        2
    } else if percent <= 49 {
        3
    } else if percent <= 79 {
        4
    } else if percent <= 94 {
        5
    } else {
        6
    }
}

pub fn state_from_percent(percent: u8) -> (r: u8)
    ensures
        r == spec_state_from_percent(percent),
        1 <= r <= 6,
{
    if percent <= 9 {
        1
    } else if percent <= 29 {
        2
    } else if percent <= 49 {
        3
    } else if percent <= 79 {
        4
    } else if percent <= 94 {
        5
    } else {
        6
    }
}

/// The stage label shown beside the title.
pub fn status_from_percent(percent: u8) -> (r: &'static str)
    ensures
        r@ == if percent <= 9 {
            "📦 Collect Resource For Scene"@
        } else if percent <= 29 {
            "🔧 Rigging"@
        } else if percent <= 49 {
            "🎬 Animating"@
        } else if percent <= 59 {
            "✨ Final Animating"@
        } else if percent <= 79 {
            "🖥 Rendering"@
        } else if percent <= 94 {
            "🎬 Editing"@
        } else if percent <= 100 {
            "✅ Completed"@
        } else {
            "❓ Unknown"@
        },
{
    if percent <= 9 {
        "📦 Collect Resource For Scene"
    } else if percent <= 29 {
        "🔧 Rigging"
    } else if percent <= 49 {
        "🎬 Animating"
    } else if percent <= 59 {
        "✨ Final Animating"
    } else if percent <= 79 {
        "🖥 Rendering"
    } else if percent <= 94 {
        "🎬 Editing"
    } else if percent <= 100 {
        "✅ Completed"
    } else {
        "❓ Unknown"
    }
}

/// The embed colour for a progress percentage, as a packed RGB value.
pub fn colour_from_percent(percent: u8) -> (r: u32)
    ensures
        r == if percent < 25 {
            0xE74C3Cu32
        } else if percent < 50 {
            0xF1C40Fu32
        } else if percent < 75 {
            0x2ECC71u32
        } else if percent < 100 {
            0x27AE60u32
        } else {
            0x9B59B6u32
        },
{
    if percent < 25 {
        0xE74C3C
    } else if percent < 50 {
        0xF1C40F
    } else if percent < 75 {
        0x2ECC71
    } else if percent < 100 {
        0x27AE60
    } else {
        0x9B59B6
    }
}

/// How many cells of a `width`-cell progress bar are filled at
/// `percent`: the share rounded to the nearest cell, half up, and never
/// more than the width.
pub open spec fn spec_filled_cells(percent: u8, width: u8) -> int {
    let exact = (percent as int * width as int + 50) / 100;
    if exact <= width as int {
        exact
    } else {
        width as int
    }
}

/// The character repeated `n` times.
pub open spec fn spec_repeat(c: char, n: int) -> Seq<char>
    decreases n,
{
    if n <= 0 {
        Seq::<char>::empty()
    } else {
        spec_repeat(c, n - 1).push(c)
    }
}

/// The bar itself: the filled cells, then the empty cells up to
/// `width`, in backticked brackets.
pub fn progress_bar(percent: u8, width: u8) -> (r: String)
    ensures
        r@ == seq!['`', '['] + spec_repeat('█', spec_filled_cells(percent, width)) + spec_repeat(
            '░',
            width as int - spec_filled_cells(percent, width),
        ) + seq![']', '`'],
{
    proof {
        assert(percent as int * width as int <= 255 * 255) by (nonlinear_arith)
            requires
                percent as int <= 255,
                width as int <= 255,
        ;
    }
    let filled_raw = (percent as u32 * width as u32 + 50) / 100;
    let filled: u32 = if filled_raw <= width as u32 {
        filled_raw
    } else {
        width as u32
    };
    let mut out = "`[".to_owned();
    proof {
        reveal_strlit("`[");
        assert(out@ =~= seq!['`', '[']);
        assert(spec_repeat('█', 0) =~= Seq::<char>::empty());
        assert(out@ =~= seq!['`', '['] + spec_repeat('█', 0));
    }
    let mut i: u32 = 0;
    while i < filled
        invariant
            i <= filled,
            filled == spec_filled_cells(percent, width),
            filled <= width,
            out@ == seq!['`', '['] + spec_repeat('█', i as int),
        decreases filled - i,
    {
        out.append("█");
        proof {
            reveal_strlit("█");
            assert("█"@ =~= seq!['█']);
            assert(out@ =~= seq!['`', '['] + spec_repeat('█', i + 1));
        }
        i += 1;
    }
    proof {
        assert(spec_repeat('░', 0) =~= Seq::<char>::empty());
        assert(out@ =~= seq!['`', '['] + spec_repeat('█', filled as int) + spec_repeat('░', 0));
    }
    let mut j: u32 = 0;
    while j < width as u32 - filled
        invariant
            j <= width as u32 - filled,
            filled == spec_filled_cells(percent, width),
            filled <= width,
            out@ == seq!['`', '['] + spec_repeat('█', filled as int) + spec_repeat('░', j as int),
        decreases width as u32 - filled - j,
    {
        out.append("░");
        proof {
            reveal_strlit("░");
            assert("░"@ =~= seq!['░']);
            assert(out@ =~= seq!['`', '['] + spec_repeat('█', filled as int) + spec_repeat(
                '░',
                j + 1,
            ));
        }
        j += 1;
    }
    out.append("]`");
    proof {
        reveal_strlit("]`");
        assert("]`"@ =~= seq![']', '`']);
        assert(out@ =~= seq!['`', '['] + spec_repeat('█', spec_filled_cells(percent, width))
            + spec_repeat('░', width as int - spec_filled_cells(percent, width)) + seq![']', '`']);
    }
    out
}

} // verus!
