//! The list of the known chips.
use crate::text::texts;
use vstd::prelude::*;

verus! {

/// A family of chips.
#[derive(Debug)]
pub struct Family {
    pub name: String,
    /// The names of the chips.
    pub variants: Vec<String>,
}

/// The lines on one family: its name, a heading, and the name of each chip.
pub open spec fn lines_on(family: Family) -> Seq<Seq<char>> {
    seq![family.name@, "    Variants:"@] + texts(family.variants@).map_values(
        |variant: Seq<char>| "        "@ + variant,
    )
}

/// The lines on all families, in their order.
pub open spec fn listing_of(families: Seq<Family>) -> Seq<Seq<char>>
    decreases families.len(),
{
    if families.len() == 0 {
        Seq::empty()
    } else {
        listing_of(families.drop_last()) + lines_on(families.last())
    }
}

/// The lines on all families, in their order.
pub fn print_families(families: &Vec<Family>) -> (listing: Vec<String>)
    ensures
        texts(listing@) == listing_of(families@),
{
    let mut listing: Vec<String> = Vec::new();
    let mut i: usize = 0;
    assert(families@.take(0) =~= Seq::empty());
    assert(texts(listing@) =~= Seq::empty());
    while i < families.len()
        invariant
            i <= families.len(),
            texts(listing@) == listing_of(families@.take(i as int)),
        decreases families.len() - i,
    {
        let family = &families[i];
        let ghost above = texts(listing@);
        let ghost variants = texts(family.variants@).map_values(
            |variant: Seq<char>| "        "@ + variant,
        );
        listing.push(family.name.clone());
        listing.push("    Variants:".to_owned());
        let ghost head = above + seq![family.name@, "    Variants:"@];
        assert(texts(listing@) =~= head);
        let mut j: usize = 0;
        assert(head + variants.take(0) =~= head);
        while j < family.variants.len()
            invariant
                j <= family.variants.len(),
                variants == texts(family.variants@).map_values(
                    |variant: Seq<char>| "        "@ + variant,
                ),
                texts(listing@) == head + variants.take(j as int),
            decreases family.variants.len() - j,
        {
            let ghost known = texts(listing@);
            let line = "        ".to_owned().concat(family.variants[j].as_str());
            assert(line@ == variants[j as int]);
            listing.push(line);
            assert(texts(listing@) =~= known.push(line@));
            assert(head + variants.take(j + 1) =~= known.push(line@));
            j += 1;
        }
        proof {
            assert(variants.take(j as int) =~= variants);
            assert(texts(listing@) =~= above + lines_on(*family));
            assert(families@.take(i + 1).drop_last() =~= families@.take(i as int));
            assert(families@.take(i + 1).last() == *family);
        }
        i += 1;
    }
    assert(families@.take(i as int) =~= families@);
    listing
}

/// The lines on two lists of families in a row are the lines on each.
pub proof fn law_families_are_listed_one_by_one(a: Seq<Family>, b: Seq<Family>)
    ensures
        listing_of(a + b) == listing_of(a) + listing_of(b),
        listing_of(Seq::empty()) == Seq::<Seq<char>>::empty(),
    decreases b.len(),
{
    if b.len() == 0 {
        assert(a + b =~= a);
        assert(listing_of(a) + listing_of(b) =~= listing_of(a));
    } else {
        assert((a + b).drop_last() =~= a + b.drop_last());
        assert((a + b).last() == b.last());
        law_families_are_listed_one_by_one(a, b.drop_last());
        assert(listing_of(a + b) =~= listing_of(a) + listing_of(b));
    }
}

/// Every chip of a family is listed, in its place behind the two lines at the family's head.
pub proof fn law_every_chip_is_listed(family: Family, i: int)
    requires
        0 <= i < family.variants@.len(),
    ensures
        listing_of(seq![family])[2 + i] == "        "@ + family.variants@[i]@,
{
    reveal_with_fuel(listing_of, 2);
    assert(seq![family].drop_last() =~= Seq::empty());
    assert(seq![family].last() == family);
    assert(listing_of(seq![family]) =~= lines_on(family));
}

/// A family takes two lines more than it has chips, its name and a heading first.
pub proof fn law_every_family_is_headed(family: Family)
    ensures
        listing_of(seq![family]).len() == 2 + family.variants@.len(),
        listing_of(seq![family])[0] == family.name@,
        listing_of(seq![family])[1] == "    Variants:"@,
{
    reveal_with_fuel(listing_of, 2);
    assert(seq![family].drop_last() =~= Seq::empty());
    assert(seq![family].last() == family);
    assert(listing_of(seq![family]) =~= lines_on(family));
}

} // verus!
