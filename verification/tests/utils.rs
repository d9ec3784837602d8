use esp_c3_nostd_examples::utils::{arrange_channels, clamp_percent, hue_sector, wrap_hue, HueSector};

#[test]
fn hue_wraps_around_the_circle() {
    assert_eq!(wrap_hue(0), 0);
    assert_eq!(wrap_hue(359), 359);
    assert_eq!(wrap_hue(360), 0);
    assert_eq!(wrap_hue(370), 10);
    assert_eq!(wrap_hue(u16::MAX), 15);
}

#[test]
fn hue_sectors_have_sixty_degrees() {
    assert_eq!(hue_sector(0), HueSector::RedToYellow);
    assert_eq!(hue_sector(59), HueSector::RedToYellow);
    assert_eq!(hue_sector(60), HueSector::YellowToGreen);
    assert_eq!(hue_sector(120), HueSector::GreenToCyan);
    assert_eq!(hue_sector(180), HueSector::CyanToBlue);
    assert_eq!(hue_sector(240), HueSector::BlueToMagenta);
    assert_eq!(hue_sector(299), HueSector::BlueToMagenta);
    assert_eq!(hue_sector(300), HueSector::MagentaToRed);
    assert_eq!(hue_sector(359), HueSector::MagentaToRed);
}

#[test]
fn percentages_are_clamped() {
    assert_eq!(clamp_percent(0), 0);
    assert_eq!(clamp_percent(30), 30);
    assert_eq!(clamp_percent(100), 100);
    assert_eq!(clamp_percent(255), 100);
}

#[test]
fn channels_are_placed_by_sector() {
    assert_eq!(arrange_channels(HueSector::RedToYellow, 3, 2, 0), (3, 2, 0));
    assert_eq!(arrange_channels(HueSector::YellowToGreen, 3, 2, 0), (2, 3, 0));
    assert_eq!(arrange_channels(HueSector::GreenToCyan, 3, 2, 0), (0, 3, 2));
    assert_eq!(arrange_channels(HueSector::CyanToBlue, 3, 2, 0), (0, 2, 3));
    assert_eq!(arrange_channels(HueSector::BlueToMagenta, 3, 2, 0), (2, 0, 3));
    assert_eq!(arrange_channels(HueSector::MagentaToRed, 3, 2, 0), (3, 0, 2));
}
