use job_schedule::drawer::{Depth, DrawerBox, Height, Inches, Millimeters, Width};

#[test]
fn width_box() {
    assert_eq!(Width::custom(Inches::whole(18)).valen_box(), Millimeters(441));
    assert_eq!(Width::custom(Inches::whole(24)).valen_box(), Millimeters(594));
    assert_eq!(Width::custom(Inches::whole(30)).valen_box(), Millimeters(746));
    assert_eq!(Width::custom(Inches::whole(36)).valen_box(), Millimeters(898));
}

#[test]
fn width_bottom() {
    assert_eq!(Width::custom(Inches::whole(18)).valen_bottom(), Millimeters(427));
    assert_eq!(Width::custom(Inches::whole(24)).valen_bottom(), Millimeters(580));
    assert_eq!(Width::custom(Inches::whole(30)).valen_bottom(), Millimeters(732));
    assert_eq!(Width::custom(Inches::whole(36)).valen_bottom(), Millimeters(884));
}

#[test]
fn width_rounds_half_away_from_zero() {
    // 0.5" is 12.7 mm: 12.7 - 16 = -3.3, which rounds to -3.
    assert_eq!(Width::custom(Inches::from_thousandths(500)).valen_box(), Millimeters(-3));
    // 1.25" is 31.75 mm: 31.75 - 30 = 1.75, which rounds to 2.
    assert_eq!(Width::custom(Inches::from_thousandths(1250)).valen_bottom(), Millimeters(2));
}

#[test]
fn drawer_box_parts() {
    let drawer = DrawerBox { height: Height::M, width: Width::standard_24(), depth: Depth::D20 };
    let valen = drawer.valen();
    assert_eq!(valen.width, Millimeters(594));
    assert_eq!(valen.height, Millimeters(115));
    assert_eq!(valen.depth, Millimeters(487));
    assert_eq!(valen.bottom_depth, Millimeters(478));
    assert_eq!(valen.bottom_width, Millimeters(580));
    assert_eq!(valen.front().width, Millimeters(594));
    assert_eq!(valen.back().height, Millimeters(115));
    assert_eq!(valen.side_logo().depth, Millimeters(487));
    assert_eq!(valen.side_plane().height, Millimeters(115));
    assert_eq!(valen.bottom().width, Millimeters(580));
    assert_eq!(valen.bottom().depth, Millimeters(478));
}

#[test]
fn unavailable_depths() {
    assert_eq!(Depth::D12.valen_box(), Millimeters(-1));
    assert_eq!(Depth::D16.valen_bottom(), Millimeters(-1));
    assert_eq!(Depth::D14.valen_box(), Millimeters(327));
    assert_eq!(Height::XL.valen_box(), Millimeters(253));
}

#[test]
fn drawer_defaults() {
    let drawer = DrawerBox::default();
    assert_eq!(drawer.height, Height::L);
    assert_eq!(drawer.width, Width::standard_24());
    assert_eq!(drawer.depth, Depth::D14);
}

#[test]
fn drawer_labels() {
    assert_eq!(Height::XL.to_string(), "XL");
    assert_eq!(Depth::D14.to_string(), "14\"");
    let line = job_schedule::drawer::DrawerBoxLine { quantity: 3, drawer_box: DrawerBox::default() };
    assert_eq!(line.quantity, 3);
}
