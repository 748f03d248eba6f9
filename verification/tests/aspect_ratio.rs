use doukutsu_core::aspect_ratio::{AspectRatio, DataType, ResolvedAspect};

#[test]
fn parse_keywords_in_any_case_and_trimmed() {
    assert_eq!(AspectRatio::parse("default"), AspectRatio::Default);
    assert_eq!(AspectRatio::parse("  Stretch "), AspectRatio::Stretch);
    assert_eq!(AspectRatio::parse("UNRESTRICTED"), AspectRatio::Unrestricted);
}

#[test]
fn parse_ratios() {
    assert_eq!(AspectRatio::parse("16:9"), AspectRatio::Locked { w: 16, h: 9 });
    assert_eq!(AspectRatio::parse(" 4 : 3 "), AspectRatio::Locked { w: 4, h: 3 });
}

#[test]
fn parse_falls_back_to_default() {
    assert_eq!(AspectRatio::parse("0:9"), AspectRatio::Default);
    assert_eq!(AspectRatio::parse("16:"), AspectRatio::Default);
    assert_eq!(AspectRatio::parse("wide"), AspectRatio::Default);
    assert_eq!(AspectRatio::parse(""), AspectRatio::Default);
    assert_eq!(AspectRatio::parse("4:3:2"), AspectRatio::Default);
}

#[test]
fn stringify_values() {
    assert_eq!(AspectRatio::Default.stringify(), "default");
    assert_eq!(AspectRatio::Unrestricted.stringify(), "unrestricted");
    assert_eq!(AspectRatio::Stretch.stringify(), "stretch");
    assert_eq!(AspectRatio::Locked { w: 16, h: 10 }.stringify(), "16:10");
}

#[test]
fn parse_reads_back_what_stringify_writes() {
    for a in [
        AspectRatio::Default,
        AspectRatio::Unrestricted,
        AspectRatio::Stretch,
        AspectRatio::Locked { w: 21, h: 9 },
        AspectRatio::Locked { w: 4294967295, h: 1 },
    ] {
        assert_eq!(AspectRatio::parse(&a.stringify()), a);
    }
    // A zero side is written but reads back as the default.
    assert_eq!(AspectRatio::parse(&AspectRatio::Locked { w: 0, h: 3 }.stringify()), AspectRatio::Default);
}

#[test]
fn resolve_by_edition() {
    assert_eq!(AspectRatio::Default.resolve(Some(DataType::Switch)), ResolvedAspect::Locked { w: 16, h: 9 });
    assert_eq!(AspectRatio::Default.resolve(Some(DataType::CS3D)), ResolvedAspect::Locked { w: 5, h: 4 });
    assert_eq!(AspectRatio::Default.resolve(Some(DataType::Freeware)), ResolvedAspect::Locked { w: 4, h: 3 });
    assert_eq!(AspectRatio::Default.resolve(None), ResolvedAspect::Locked { w: 4, h: 3 });
    assert_eq!(AspectRatio::Stretch.resolve(None), ResolvedAspect::Stretch);
    assert_eq!(AspectRatio::Unrestricted.resolve(Some(DataType::Switch)), ResolvedAspect::Unrestricted);
    assert_eq!(AspectRatio::Locked { w: 3, h: 2 }.resolve(Some(DataType::CS3D)), ResolvedAspect::Locked { w: 3, h: 2 });
}
