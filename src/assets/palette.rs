//! Palettes of 15-bit colours and the mapping of image indices into a
//! 16-colour palette bank.
use vstd::prelude::*;

verus! {

/// Colours per palette bank.
pub const PAL_BANK_SIZE: usize = 16;

/// A list of 15-bit colours.
#[derive(Clone, Debug)]
pub struct Palette {
    colors: Vec<u16>,
}

impl Palette {
    pub closed spec fn view(&self) -> Seq<u16> {
        self.colors@
    }

    pub fn new(colors: Vec<u16>) -> (r: Self)
        ensures
            r@ == colors@,
    {
        Self { colors }
    }

    /// Whether every colour of `other` is also in this palette.
    pub fn contains(&self, other: &Palette) -> (r: bool)
        ensures
            r == forall|j: int| 0 <= j < other@.len() ==> self@.contains(#[trigger] other@[j]),
    {
        let mut j: usize = 0;
        while j < other.colors.len()
            invariant
                j <= other@.len(),
                forall|k: int| 0 <= k < j ==> self@.contains(#[trigger] other@[k]),
            decreases other@.len() - j,
        {
            let c = other.colors[j];
            let mut found = false;
            let mut i: usize = 0;
            while i < self.colors.len() && !found
                invariant
                    i <= self@.len(),
                    found ==> self@.contains(c),
                    !found ==> forall|k: int| 0 <= k < i ==> self@[k] != c,
                decreases self@.len() - i + if found { 0int } else { 1 },
            {
                if self.colors[i] == c {
                    found = true;
                } else {
                    i = i + 1;
                }
            }
            if !found {
                assert(!self@.contains(other@[j as int]));
                return false;
            }
            j = j + 1;
        }
        true
    }

    pub fn len(&self) -> (r: usize)
        ensures
            r == self@.len(),
    {
        self.colors.len()
    }
}

/// Packs 8-bit red, green and blue channels into a 15-bit colour: the top
/// five bits of each, red lowest.
pub fn palette_entry_to_15bit_color(red: u8, green: u8, blue: u8) -> (r: u16)
    ensures
        r == (red as int / 8) + 32 * (green as int / 8) + 1024 * (blue as int / 8),
{
    let red: u16 = (red / 8) as u16;
    let green: u16 = (green / 8) as u16;
    let blue: u16 = (blue / 8) as u16;
    red + green * 32 + blue * 1024
}

/// Maps an image's palette indices to indices within one palette bank.
#[derive(Clone, Copy, Debug)]
pub struct MappedPalette {
    pal_bank: u8,
    pub indices: [u8; 16],
    transparency_index: Option<u8>,
}

impl MappedPalette {
    /// Every mapped index lies within a bank.
    pub open spec fn wf(&self) -> bool {
        forall|i: int| 0 <= i < 16 ==> (#[trigger] self.spec_indices()[i]) < 16
    }

    /// The bank-local index of each of the image's first 16 indices.
    pub closed spec fn spec_indices(&self) -> Seq<u8> {
        self.indices@
    }

    pub closed spec fn spec_bank(&self) -> u8 {
        self.pal_bank
    }

    pub closed spec fn spec_transparency(&self) -> Option<u8> {
        self.transparency_index
    }

    /// What index `index` of the image becomes: 0 for the transparent index,
    /// else its entry in the mapping.
    pub open spec fn spec_map(&self, index: u8) -> u8 {
        if self.spec_transparency() == Some(index) {
            0
        } else {
            self.spec_indices()[index as int]
        }
    }

    /// An index of the image that can be mapped.
    pub open spec fn maps(&self, index: u8) -> bool {
        self.spec_transparency() == Some(index) || index < 16
    }

    pub fn new(pal_bank: u8, indices: [u8; 16], transparency_index: Option<u8>) -> (r: Self)
        requires
            forall|i: int| 0 <= i < 16 ==> (#[trigger] indices@[i]) < 16,
        ensures
            r.wf(),
            r.spec_bank() == pal_bank,
            r.spec_indices() == indices@,
            r.spec_transparency() == transparency_index,
    {
        Self { pal_bank, indices, transparency_index }
    }

    pub fn map_index(&self, index: u8) -> (r: u8)
        requires
            self.maps(index),
        ensures
            r == self.spec_map(index),
            self.wf() ==> r < 16,
    {
        if let Some(n) = self.transparency_index {
            if index == n {
                return 0;
            }
        }
        proof {
            if self.wf() {
                assert(self.spec_indices()[index as int] < 16);
            }
        }
        self.indices[index as usize]
    }

    pub fn palette_bank(&self) -> (r: u8)
        ensures
            r == self.spec_bank(),
    {
        self.pal_bank
    }
}

/// Colours in the whole palette memory.
pub const MAX_PAL_SIZE: usize = 256;

/// Number of palette banks.
pub const NUM_BANKS: usize = 16;

/// Bank `b` of a full palette.
pub open spec fn bank_of(full: Seq<u16>, b: int) -> Seq<u16> {
    full.subrange(16 * b, 16 * b + 16)
}

/// Every colour of `raw` is in `bank`.
pub open spec fn holds_all(bank: Seq<u16>, raw: Seq<u16>) -> bool {
    forall|k: int| 0 <= k < raw.len() ==> bank.contains(#[trigger] raw[k])
}

/// The full palette memory: sixteen banks of sixteen colours.
#[derive(Debug)]
pub struct PaletteMapper {
    final_palette: Vec<u16>,
}

impl PaletteMapper {
    pub closed spec fn view(&self) -> Seq<u16> {
        self.final_palette@
    }

    pub open spec fn wf(&self) -> bool {
        self@.len() == MAX_PAL_SIZE
    }

    /// Bank `i` holds palette `i` from its first entry on; the rest is zero.
    pub fn from_palettes(palettes: &Vec<Palette>) -> (r: Self)
        requires
            palettes@.len() <= NUM_BANKS,
            forall|i: int| 0 <= i < palettes@.len() ==> (#[trigger] palettes@[i])@.len() <= PAL_BANK_SIZE,
        ensures
            r.wf(),
            forall|b: int, j: int| 0 <= b < NUM_BANKS && 0 <= j < PAL_BANK_SIZE ==> #[trigger] r@[16 * b + j] == if b < palettes@.len() && j < palettes@[b]@.len() {
                palettes@[b]@[j]
            } else {
                0u16
            },
    {
        let mut final_palette: Vec<u16> = Vec::new();
        let mut b: usize = 0;
        while b < NUM_BANKS
            invariant
                b <= NUM_BANKS,
                palettes@.len() <= NUM_BANKS,
                forall|i: int| 0 <= i < palettes@.len() ==> (#[trigger] palettes@[i])@.len() <= PAL_BANK_SIZE,
                final_palette@.len() == 16 * b,
                forall|c: int, j: int| 0 <= c < b && 0 <= j < PAL_BANK_SIZE ==> #[trigger] final_palette@[16 * c + j] == if c < palettes@.len() && j < palettes@[c]@.len() {
                    palettes@[c]@[j]
                } else {
                    0u16
                },
            decreases NUM_BANKS - b,
        {
            let mut j: usize = 0;
            while j < PAL_BANK_SIZE
                invariant
                    b < NUM_BANKS,
                    j <= PAL_BANK_SIZE,
                    palettes@.len() <= NUM_BANKS,
                    forall|i: int| 0 <= i < palettes@.len() ==> (#[trigger] palettes@[i])@.len() <= PAL_BANK_SIZE,
                    final_palette@.len() == 16 * b + j,
                    forall|c: int, k: int| 0 <= c < b && 0 <= k < PAL_BANK_SIZE ==> #[trigger] final_palette@[16 * c + k] == if c < palettes@.len() && k < palettes@[c]@.len() {
                        palettes@[c]@[k]
                    } else {
                        0u16
                    },
                    forall|k: int| 0 <= k < j ==> #[trigger] final_palette@[16 * b + k] == if b < palettes@.len() && k < palettes@[b as int]@.len() {
                        palettes@[b as int]@[k]
                    } else {
                        0u16
                    },
                decreases PAL_BANK_SIZE - j,
            {
                let color: u16 = if b < palettes.len() && j < palettes[b].colors.len() {
                    palettes[b].colors[j]
                } else {
                    0
                };
                final_palette.push(color);
                j = j + 1;
            }
            b = b + 1;
        }
        PaletteMapper { final_palette }
    }

    /// The whole palette memory as one palette.
    pub fn full_palette(&self) -> (r: Palette)
        ensures
            r@ == self@,
    {
        Palette::new(self.final_palette.clone())
    }

    /// The first position of `color` in bank `b`.
    fn bank_position(&self, b: usize, color: u16) -> (r: Option<usize>)
        requires
            self.wf(),
            b < NUM_BANKS,
        ensures
            r matches Some(j) ==> j < PAL_BANK_SIZE && bank_of(self@, b as int)[j as int] == color
                && forall|i: int| 0 <= i < j ==> bank_of(self@, b as int)[i] != color,
            r is None ==> !bank_of(self@, b as int).contains(color),
    {
        let mut j: usize = 0;
        while j < PAL_BANK_SIZE
            invariant
                self.wf(),
                b < NUM_BANKS,
                j <= PAL_BANK_SIZE,
                forall|i: int| 0 <= i < j ==> bank_of(self@, b as int)[i] != color,
            decreases PAL_BANK_SIZE - j,
        {
            if self.final_palette[16 * b + j] == color {
                return Some(j);
            }
            j = j + 1;
        }
        None
    }

    /// Maps `raw_palette` into the first bank that holds all its colours:
    /// each index becomes the first position of its colour in that bank.
    /// `None` when no bank holds them all.
    pub fn map_palette(&self, raw_palette: &Palette, transparency_index: Option<u8>) -> (r: Option<MappedPalette>)
        requires
            self.wf(),
            raw_palette@.len() <= PAL_BANK_SIZE,
        ensures
            r is None <==> forall|b: int| 0 <= b < NUM_BANKS ==> !holds_all(bank_of(self@, b), raw_palette@),
            r matches Some(m) ==> {
                let b = m.spec_bank() as int;
                &&& m.wf()
                &&& b < NUM_BANKS
                &&& holds_all(bank_of(self@, b), raw_palette@)
                &&& forall|c: int| 0 <= c < b ==> !holds_all(bank_of(self@, c), raw_palette@)
                &&& m.spec_transparency() == transparency_index
                &&& forall|k: int| 0 <= k < raw_palette@.len() ==> {
                    &&& bank_of(self@, b)[m.spec_indices()[k] as int] == raw_palette@[k]
                    &&& forall|i: int| 0 <= i < m.spec_indices()[k] ==> bank_of(self@, b)[i] != raw_palette@[k]
                }
                &&& forall|k: int| raw_palette@.len() <= k < PAL_BANK_SIZE ==> m.spec_indices()[k] == 0
            },
    {
        let mut b: usize = 0;
        while b < NUM_BANKS
            invariant
                self.wf(),
                raw_palette@.len() <= PAL_BANK_SIZE,
                b <= NUM_BANKS,
                forall|c: int| 0 <= c < b ==> !holds_all(bank_of(self@, c), raw_palette@),
            decreases NUM_BANKS - b,
        {
            let mut indices: [u8; 16] = [0; 16];
            let mut k: usize = 0;
            let mut all = true;
            while k < raw_palette.colors.len() && all
                invariant
                    self.wf(),
                    b < NUM_BANKS,
                    raw_palette@.len() <= PAL_BANK_SIZE,
                    k <= raw_palette@.len(),
                    all ==> forall|q: int| 0 <= q < k ==> {
                        &&& (#[trigger] indices@[q]) < 16
                        &&& bank_of(self@, b as int)[indices@[q] as int] == raw_palette@[q]
                        &&& forall|i: int| 0 <= i < indices@[q] ==> bank_of(self@, b as int)[i] != raw_palette@[q]
                    },
                    all ==> forall|q: int| k <= q < 16 ==> #[trigger] indices@[q] == 0,
                    !all ==> !holds_all(bank_of(self@, b as int), raw_palette@),
                decreases raw_palette@.len() - k + if all { 1int } else { 0 },
            {
                match self.bank_position(b, raw_palette.colors[k]) {
                    Some(j) => {
                        indices[k] = j as u8;
                        k = k + 1;
                    },
                    None => {
                        all = false;
                    },
                }
            }
            if all {
                proof {
                    assert forall|q: int| 0 <= q < raw_palette@.len() implies bank_of(self@, b as int).contains(#[trigger] raw_palette@[q]) by {
                        assert(bank_of(self@, b as int)[indices@[q] as int] == raw_palette@[q]);
                    }
                    assert forall|q: int| 0 <= q < 16 implies (#[trigger] indices@[q]) < 16 by {
                        if q >= k {
                            assert(indices@[q] == 0);
                        }
                    }
                    assert(holds_all(bank_of(self@, b as int), raw_palette@));
                }
                return Some(MappedPalette::new(b as u8, indices, transparency_index));
            }
            b = b + 1;
        }
        None
    }
}

/// The colours of the palettes `ps`, one after the other.
pub open spec fn concat_colors(ps: Seq<Palette>) -> Seq<u16>
    decreases ps.len(),
{
    if ps.len() == 0 {
        Seq::empty()
    } else {
        concat_colors(ps.drop_last()) + ps.last()@
    }
}

/// The first sixteen entries of `s`, or all of them.
pub open spec fn cut_bank(s: Seq<u16>) -> Seq<u16> {
    if s.len() > PAL_BANK_SIZE { s.subrange(0, PAL_BANK_SIZE as int) } else { s }
}

/// `s` cut or padded with zeros to sixteen entries.
pub open spec fn fit_bank(s: Seq<u16>) -> Seq<u16> {
    if s.len() >= PAL_BANK_SIZE {
        s.subrange(0, PAL_BANK_SIZE as int)
    } else {
        s + Seq::new((PAL_BANK_SIZE - s.len()) as nat, |i: int| 0u16)
    }
}

/// The bank made of the palettes `ps`: a leading zero colour, then their
/// colours in order, cut or padded with zeros to sixteen.
pub open spec fn bank_colors(ps: Seq<Palette>) -> Seq<u16> {
    fit_bank(seq![0u16] + concat_colors(ps))
}

proof fn lemma_cut_bank_extend(a: Seq<u16>, b: Seq<u16>)
    requires
        a.len() >= PAL_BANK_SIZE,
    ensures
        cut_bank(a + b) == cut_bank(a),
{
    assert((a + b).subrange(0, PAL_BANK_SIZE as int) =~= a.subrange(0, PAL_BANK_SIZE as int));
}

/// Builds one bank from the palettes of a bin.
fn flatten_bank(palettes: &Vec<Palette>) -> (r: Palette)
    ensures
        r@ == bank_colors(palettes@),
{
    let mut colors: Vec<u16> = Vec::new();
    colors.push(0);
    let ghost head = seq![0u16];
    assert(colors@ =~= head);
    assert(concat_colors(palettes@.subrange(0, 0)) =~= Seq::<u16>::empty());
    assert(colors@ =~= cut_bank(head + concat_colors(palettes@.subrange(0, 0))));
    let mut i: usize = 0;
    while i < palettes.len()
        invariant
            i <= palettes@.len(),
            colors@ == cut_bank(head + concat_colors(palettes@.subrange(0, i as int))),
            head == seq![0u16],
        decreases palettes@.len() - i,
    {
        let ghost before = head + concat_colors(palettes@.subrange(0, i as int));
        let ghost p = palettes@[i as int]@;
        assert(palettes@.subrange(0, i as int + 1).drop_last() =~= palettes@.subrange(0, i as int));
        assert(concat_colors(palettes@.subrange(0, i as int + 1)) == concat_colors(palettes@.subrange(0, i as int)) + p);
        let mut j: usize = 0;
        while j < palettes[i].colors.len() && colors.len() < PAL_BANK_SIZE
            invariant
                i < palettes@.len(),
                p == palettes@[i as int]@,
                j <= p.len(),
                colors@.len() <= PAL_BANK_SIZE,
                colors@ == cut_bank(before + p.subrange(0, j as int)),
                colors@.len() < PAL_BANK_SIZE ==> colors@ == before + p.subrange(0, j as int),
            decreases p.len() - j,
        {
            colors.push(palettes[i].colors[j]);
            j = j + 1;
            assert(before + p.subrange(0, j as int) =~= (before + p.subrange(0, j - 1)).push(p[j - 1]));
        }
        proof {
            if j < p.len() {
                let full = before + p.subrange(0, j as int);
                assert(full.len() >= PAL_BANK_SIZE);
                lemma_cut_bank_extend(full, p.subrange(j as int, p.len() as int));
                assert(full + p.subrange(j as int, p.len() as int) =~= before + p);
            } else {
                assert(p.subrange(0, j as int) =~= p);
            }
            assert(head + concat_colors(palettes@.subrange(0, i as int + 1)) =~= before + p);
        }
        i = i + 1;
    }
    assert(palettes@.subrange(0, i as int) =~= palettes@);
    let ghost all = head + concat_colors(palettes@);
    assert(colors@ == cut_bank(all));
    while colors.len() < PAL_BANK_SIZE
        invariant
            colors@.len() <= PAL_BANK_SIZE,
            all.len() >= PAL_BANK_SIZE ==> colors@ == all.subrange(0, PAL_BANK_SIZE as int),
            all.len() < PAL_BANK_SIZE ==> colors@ == all + Seq::new((colors@.len() - all.len()) as nat, |k: int| 0u16),
            colors@.len() >= all.len() || colors@.len() == PAL_BANK_SIZE,
        decreases PAL_BANK_SIZE - colors@.len(),
    {
        let ghost old_len = colors@.len();
        colors.push(0);
        proof {
            if all.len() < PAL_BANK_SIZE {
                assert(colors@ =~= all + Seq::new((colors@.len() - all.len()) as nat, |k: int| 0u16));
            }
        }
    }
    proof {
        if all.len() < PAL_BANK_SIZE {
            assert(colors@ =~= fit_bank(all));
        }
    }
    Palette::new(colors)
}

/// Joins the palettes of each bin into one bank each, in order.
pub fn flatten_palette_banks(palette_banks: Vec<crate::assets::binpack::Bin<Palette>>) -> (r: Vec<Palette>)
    ensures
        r@.len() == palette_banks@.len(),
        forall|i: int| 0 <= i < r@.len() ==> (#[trigger] r@[i])@ == bank_colors(palette_banks@[i]@),
{
    let ghost orig = palette_banks@;
    let mut banks = palette_banks;
    let n = banks.len();
    let mut reversed: Vec<Palette> = Vec::new();
    while banks.len() > 0
        invariant
            n == orig.len(),
            banks@ == orig.subrange(0, banks@.len() as int),
            reversed@.len() + banks@.len() == n,
            forall|k: int| 0 <= k < reversed@.len() ==> (#[trigger] reversed@[k])@ == bank_colors(orig[n - 1 - k]@),
        decreases banks@.len(),
    {
        let bank = banks.pop().unwrap();
        let palettes = bank.into_items();
        let p = flatten_bank(&palettes);
        reversed.push(p);
    }
    let mut out: Vec<Palette> = Vec::new();
    while reversed.len() > 0
        invariant
            n == orig.len(),
            out@.len() + reversed@.len() == n,
            forall|k: int| 0 <= k < reversed@.len() ==> (#[trigger] reversed@[k])@ == bank_colors(orig[n - 1 - k]@),
            forall|i: int| 0 <= i < out@.len() ==> (#[trigger] out@[i])@ == bank_colors(orig[i]@),
        decreases reversed@.len(),
    {
        let p = reversed.pop().unwrap();
        out.push(p);
    }
    out
}

} // verus!
