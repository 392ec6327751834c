use app_units::Au;
use font_values::{FontStretch, FontStyleStruct, FontVariantCaps, FontWeight};

struct Record {
    size: Au,
    hash: u64,
    weight: FontWeight,
    stretch: FontStretch,
    caps: FontVariantCaps,
    families: Vec<String>,
    italic: bool,
}

impl FontStyleStruct for Record {
    fn size(&self) -> Au {
        self.size
    }

    fn hash(&self) -> u64 {
        self.hash
    }

    fn font_weight(&self) -> FontWeight {
        self.weight
    }

    fn font_stretch(&self) -> FontStretch {
        self.stretch
    }

    fn font_variant_caps(&self) -> FontVariantCaps {
        self.caps
    }

    fn each_font_family<F>(&self, mut f: F)
    where
        F: FnMut(&str),
    {
        for family in &self.families {
            f(family)
        }
    }

    fn is_oblique_or_italic(&self) -> bool {
        self.italic
    }
}

fn record(families: &[&str]) -> Record {
    Record {
        size: Au::from_px(16),
        hash: 0x1234_5678_9abc_def0,
        weight: FontWeight::bold(),
        stretch: FontStretch::SemiCondensed,
        caps: FontVariantCaps::SmallCaps,
        families: families.iter().map(|family| family.to_string()).collect(),
        italic: true,
    }
}

fn families_seen<S: FontStyleStruct>(style: &S) -> Vec<String> {
    let mut seen = Vec::new();
    style.each_font_family(|family| seen.push(family.to_string()));
    seen
}

#[test]
fn each_font_family_visits_in_declared_order() {
    let style = record(&["Arial", "sans-serif"]);
    let mut calls = 0;
    style.each_font_family(|_| calls += 1);
    assert_eq!(calls, 2);
    assert_eq!(families_seen(&style), vec!["Arial".to_string(), "sans-serif".to_string()]);
}

#[test]
fn each_font_family_visits_nothing_without_families() {
    let style = record(&[]);
    let mut calls = 0;
    style.each_font_family(|_| calls += 1);
    assert_eq!(calls, 0);
}

#[test]
fn a_record_is_read_through_the_trait() {
    let style = record(&["Georgia"]);
    assert_eq!(style.size(), Au(16 * 60));
    assert_eq!(style.hash(), 0x1234_5678_9abc_def0);
    assert_eq!(style.font_weight(), FontWeight(700));
    assert!(style.font_weight().is_bold());
    assert_eq!(style.font_stretch(), FontStretch::SemiCondensed);
    assert_eq!(style.font_stretch().to_number(), 4);
    assert_eq!(style.font_variant_caps(), FontVariantCaps::SmallCaps);
    assert!(style.is_oblique_or_italic());
}
