use job_schedule::drawer::{Depth, DrawerBox, Height, Inches, Width};
use job_schedule::kbc::KBCBox;

#[test]
fn width() {
    assert_eq!(Width::custom(Inches::whole(18)).kbc(), Inches::from_thousandths(17625));
    assert_eq!(Width::custom(Inches::whole(24)).kbc(), Inches::from_thousandths(23625));
    assert_eq!(Width::custom(Inches::whole(30)).kbc(), Inches::from_thousandths(29625));
    assert_eq!(Width::custom(Inches::whole(36)).kbc(), Inches::from_thousandths(35625));
}

#[test]
fn kbc_box_from_drawer() {
    let drawer = DrawerBox { height: Height::XL, width: Width::standard_30(), depth: Depth::D16 };
    let kbc = KBCBox::from_drawer(&drawer);
    assert_eq!(kbc.height, Inches::whole(10));
    assert_eq!(kbc.width, Inches::from_thousandths(29625));
    assert_eq!(kbc.depth, Inches::from_thousandths(15683));
}
