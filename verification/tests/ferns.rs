use gap_buffer::ferns::Fern;
use gap_buffer::ferns::FernType;
use gap_buffer::ferns::Leaf;
use gap_buffer::ferns::Root;
use gap_buffer::ferns::Terrarium;
use gap_buffer::ferns::trace_path;
use std::time::Duration;

#[test]
fn new_fern_is_furled() {
    let fern = Fern::new(FernType::Fiddlehead);
    assert!(fern.is_furled());
    assert!(!fern.is_fully_unfurled());
    assert_eq!(fern.stems.len(), 1);
    assert!(fern.stems[0].furled);
    assert!(fern.roots.is_empty());
}

#[test]
fn sunlight_unfurls_every_stem() {
    let ferns = vec![Fern::new(FernType::Fiddlehead), Fern::new(FernType::Fiddlehead)];
    let mut terrarium = Terrarium::with_ferns(ferns);
    assert!(terrarium.fern(0).is_furled());

    terrarium.apply_sunlight(Duration::from_secs(60));

    assert!(terrarium.fern(0).is_fully_unfurled());
    assert!(terrarium.fern(1).is_fully_unfurled());
}

#[test]
fn empty_terrarium_stays_empty() {
    let mut terrarium = Terrarium::new();
    terrarium.apply_sunlight(Duration::from_secs(1));
}

#[test]
fn traced_path_copies_endpoints() {
    let leaf = Leaf { x: true };
    let root = Root { x: false };
    let path = trace_path(&leaf, &root);
    assert!(path.from);
    assert!(!path.to);
}
