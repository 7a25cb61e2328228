use vstd::prelude::*;

use crate::options::JsFontOptions;

verus! {

/// The five generic CSS font families.
#[derive(Debug, Clone, Copy, PartialEq, Eq, Structural)]
pub enum GenericFamily {
    Serif,
    SansSerif,
    Cursive,
    Fantasy,
    Monospace,
}

/// One place the font database is filled from, in loading order.
#[derive(Debug, Clone, PartialEq, Eq)]
pub enum FontSource {
    /// Every font installed on the host.
    System,
    /// One font file; an unreadable one is skipped.
    File(String),
    /// Every font under a directory, recursively; unreadable entries are
    /// skipped.
    Dir(String),
}

/// The sources to load, in order: the host's fonts if asked for, then each
/// font file, then each font directory.
pub open spec fn source_plan(f: JsFontOptions) -> Seq<FontSource> {
    (if f.load_system_fonts {
        seq![FontSource::System]
    } else {
        Seq::empty()
    }) + f.font_files@.map_values(|p: String| FontSource::File(p)) + f.font_dirs@.map_values(
        |p: String| FontSource::Dir(p),
    )
}

/// The family name each generic family is bound to.
pub open spec fn family_plan(f: JsFontOptions) -> Seq<(GenericFamily, Seq<char>)> {
    seq![
        (GenericFamily::Serif, f.serif_family@),
        (GenericFamily::SansSerif, f.sans_serif_family@),
        (GenericFamily::Cursive, f.cursive_family@),
        (GenericFamily::Fantasy, f.fantasy_family@),
        (GenericFamily::Monospace, f.monospace_family@),
    ]
}

/// Lists where the font database of one render call is loaded from.
pub fn font_sources(font: &JsFontOptions) -> (r: Vec<FontSource>)
    ensures
        r@ == source_plan(*font),
{
    let mut out: Vec<FontSource> = Vec::new();
    if font.load_system_fonts {
        out.push(FontSource::System);
    }
    let ghost head = out@;
    let mut i: usize = 0;
    while i < font.font_files.len()
        invariant
            i <= font.font_files@.len(),
            out@ == head + font.font_files@.subrange(0, i as int).map_values(|p: String| FontSource::File(p)),
        decreases font.font_files@.len() - i,
    {
        out.push(FontSource::File(font.font_files[i].clone()));
        i = i + 1;
        assert(font.font_files@.subrange(0, i as int).map_values(|p: String| FontSource::File(p))
            =~= font.font_files@.subrange(0, i - 1).map_values(|p: String| FontSource::File(p)).push(
            FontSource::File(font.font_files@[i - 1]),
        ));
    }
    assert(font.font_files@.subrange(0, i as int) =~= font.font_files@);
    let ghost mid = out@;
    let mut j: usize = 0;
    while j < font.font_dirs.len()
        invariant
            j <= font.font_dirs@.len(),
            out@ == mid + font.font_dirs@.subrange(0, j as int).map_values(|p: String| FontSource::Dir(p)),
        decreases font.font_dirs@.len() - j,
    {
        out.push(FontSource::Dir(font.font_dirs[j].clone()));
        j = j + 1;
        assert(font.font_dirs@.subrange(0, j as int).map_values(|p: String| FontSource::Dir(p))
            =~= font.font_dirs@.subrange(0, j - 1).map_values(|p: String| FontSource::Dir(p)).push(
            FontSource::Dir(font.font_dirs@[j - 1]),
        ));
    }
    assert(font.font_dirs@.subrange(0, j as int) =~= font.font_dirs@);
    proof {
        let s = if font.load_system_fonts { seq![FontSource::System] } else { Seq::<FontSource>::empty() };
        assert(head =~= s);
    }
    out
}

/// Lists the family name each generic family is bound to in one render
/// call's font database.
pub fn generic_families(font: &JsFontOptions) -> (r: Vec<(GenericFamily, String)>)
    ensures
        r@.len() == 5,
        r@[0].0 == GenericFamily::Serif && r@[0].1@ == font.serif_family@,
        r@[1].0 == GenericFamily::SansSerif && r@[1].1@ == font.sans_serif_family@,
        r@[2].0 == GenericFamily::Cursive && r@[2].1@ == font.cursive_family@,
        r@[3].0 == GenericFamily::Fantasy && r@[3].1@ == font.fantasy_family@,
        r@[4].0 == GenericFamily::Monospace && r@[4].1@ == font.monospace_family@,
        r@.map_values(|e: (GenericFamily, String)| (e.0, e.1@)) == family_plan(*font),
{
    let mut out: Vec<(GenericFamily, String)> = Vec::new();
    out.push((GenericFamily::Serif, font.serif_family.clone()));
    out.push((GenericFamily::SansSerif, font.sans_serif_family.clone()));
    out.push((GenericFamily::Cursive, font.cursive_family.clone()));
    out.push((GenericFamily::Fantasy, font.fantasy_family.clone()));
    out.push((GenericFamily::Monospace, font.monospace_family.clone()));
    assert(out@.map_values(|e: (GenericFamily, String)| (e.0, e.1@)) =~= family_plan(*font));
    out
}

/// Two font configurations bind the generic families alike exactly when
/// their five family names agree: what one render call binds is decided by
/// its own configuration alone and never by another call's.
pub proof fn family_plans_are_independent(a: JsFontOptions, b: JsFontOptions)
    ensures
        family_plan(a) == family_plan(b) <==> {
            &&& a.serif_family@ == b.serif_family@
            &&& a.sans_serif_family@ == b.sans_serif_family@
            &&& a.cursive_family@ == b.cursive_family@
            &&& a.fantasy_family@ == b.fantasy_family@
            &&& a.monospace_family@ == b.monospace_family@
        },
{
    if family_plan(a) == family_plan(b) {
        assert(family_plan(a)[0] == family_plan(b)[0]);
        assert(family_plan(a)[1] == family_plan(b)[1]);
        assert(family_plan(a)[2] == family_plan(b)[2]);
        assert(family_plan(a)[3] == family_plan(b)[3]);
        assert(family_plan(a)[4] == family_plan(b)[4]);
    }
    if a.serif_family@ == b.serif_family@ && a.sans_serif_family@ == b.sans_serif_family@
        && a.cursive_family@ == b.cursive_family@ && a.fantasy_family@ == b.fantasy_family@
        && a.monospace_family@ == b.monospace_family@ {
        assert(family_plan(a) =~= family_plan(b));
    }
}

} // verus!
