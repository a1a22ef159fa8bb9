//! Unit tests of the board's components: pricing arithmetic, the canvas
//! blit, the registry, and initialization errors.

use nft_pixelboard::canvas::CanvasBuffer;
use nft_pixelboard::pricing::{mint_cost, split_commission, validate_price};
use nft_pixelboard::registry::TerritoryRegistry;
use nft_pixelboard::{
    Engine, InitNFTPixelboard, NFTPixelboardError, Rectangle, Token, TokenInfo, MAX_PIXEL_PRICE,
};

#[test]
fn commission_split_rebuilds_the_total() {
    // commission == total * percentage / 100, truncating; the seller
    // receives exactly the rest.
    assert_eq!(split_commission(1000, 13), (130, 870));
    assert_eq!(split_commission(7, 50), (3, 4));
    assert_eq!(split_commission(99, 1), (0, 99));
    assert_eq!(split_commission(0, 100), (0, 0));
    for percentage in 0..=100u8 {
        let total: u128 = 123456789;
        let (commission, remainder) = split_commission(total, percentage);
        assert_eq!(commission, total * percentage as u128 / 100);
        assert_eq!(commission + remainder, total);
    }
}

#[test]
fn mint_cost_is_the_exact_product() {
    assert_eq!(mint_cost(25, 4), Ok(100));
    assert_eq!(mint_cost(0, MAX_PIXEL_PRICE), Ok(0));
    assert_eq!(mint_cost(1 << 32, MAX_PIXEL_PRICE), Ok(MAX_PIXEL_PRICE << 32));
    assert_eq!(mint_cost(u64::MAX, u128::MAX), Err(NFTPixelboardError::Overflow));
}

#[test]
fn price_validation_is_exact_at_the_bound() {
    assert_eq!(validate_price(0), Ok(()));
    assert_eq!(validate_price(MAX_PIXEL_PRICE), Ok(()));
    assert_eq!(validate_price(MAX_PIXEL_PRICE + 1), Err(NFTPixelboardError::PriceTooHigh));
    // The bound itself: 2^96 / 100, truncating.
    assert_eq!(MAX_PIXEL_PRICE, 79228162514264337593543950336 / 100);
}

#[test]
fn blit_and_window_round_trip() {
    // Painting a rectangle and reading the same rectangle back returns the
    // painted pixels unchanged; every other pixel is unaffected.
    let mut canvas = CanvasBuffer::from_painting(4, 3, vec![9; 12]);
    let rectangle: Rectangle = ((1, 0), (3, 2)).into();
    let patch = vec![1, 2, 3, 4];

    assert_eq!(canvas.blit(&rectangle, &patch), Ok(()));
    assert_eq!(canvas.read_rectangle(&rectangle), patch);
    assert_eq!(canvas.pixels, vec![
        9, 1, 2, 9,
        9, 3, 4, 9,
        9, 9, 9, 9,
    ]);

    // A wrong-sized painting is rejected and changes nothing.
    assert_eq!(
        canvas.blit(&rectangle, &vec![1, 2, 3]),
        Err(NFTPixelboardError::SizeMismatch)
    );
    assert_eq!(canvas.read_rectangle(&rectangle), patch);
}

#[test]
fn registry_rejects_overlaps_and_tracks_records() {
    let mut registry = TerritoryRegistry::new();
    let first = Token(
        ((0, 0), (4, 4)).into(),
        TokenInfo { token_id: 7, owner: 1, pixel_price: None },
    );
    assert_eq!(registry.register(first), Ok(()));
    // The same footprint collides with itself.
    assert_eq!(registry.register(first), Err(NFTPixelboardError::Overlap));
    let second = Token(
        ((4, 0), (8, 4)).into(),
        TokenInfo { token_id: 8, owner: 2, pixel_price: None },
    );
    assert_eq!(registry.register(second), Ok(()));

    assert_eq!(registry.get_by_token_id(7), Some(first));
    assert_eq!(registry.get_by_token_id(9), None);
    assert_eq!(registry.get_by_rectangle(&((4, 0), (8, 4)).into()), Some(second));
    assert_eq!(registry.get_by_rectangle(&((1, 1), (2, 2)).into()), None);
    assert_eq!(registry.find_containing(&(3, 3).into()), Some(0));
    assert_eq!(registry.find_containing(&(4, 3).into()), Some(1));
    assert_eq!(registry.find_containing(&(0, 4).into()), None);

    assert_eq!(registry.set_sale_price(7, Some(5)), Ok(()));
    assert_eq!(registry.set_sale_price(9, Some(5)), Err(NFTPixelboardError::NotFound));
    assert_eq!(registry.transfer_owner(7, 3), Ok(()));
    assert_eq!(registry.transfer_owner(9, 3), Err(NFTPixelboardError::NotFound));
    let updated = registry.get_by_token_id(7).unwrap();
    assert_eq!(updated.1.owner, 3);
    assert_eq!(updated.1.pixel_price, Some(5));
}

#[test]
fn initialization_errors_name_their_cause() {
    let config = InitNFTPixelboard {
        ft_program: 2,
        min_block_side_length: 10,
        nft_program: 3,
        owner: 1,
        painting: vec![0; 100],
        pixel_price: MAX_PIXEL_PRICE,
        resale_commission_percentage: 100,
        resolution: (10, 10).into(),
    };

    let mut bad = config.clone();
    bad.owner = 0;
    assert_eq!(Engine::new(bad).err(), Some(NFTPixelboardError::ZeroAddress));

    bad = config.clone();
    bad.min_block_side_length = 0;
    assert_eq!(Engine::new(bad).err(), Some(NFTPixelboardError::ZeroBlockSideLength));

    bad = config.clone();
    bad.resolution.width = 15;
    assert_eq!(Engine::new(bad).err(), Some(NFTPixelboardError::InvalidResolution));

    bad = config.clone();
    bad.pixel_price = MAX_PIXEL_PRICE + 1;
    assert_eq!(Engine::new(bad).err(), Some(NFTPixelboardError::PriceTooHigh));

    bad = config.clone();
    bad.resale_commission_percentage = 101;
    assert_eq!(Engine::new(bad).err(), Some(NFTPixelboardError::InvalidCommission));

    bad = config.clone();
    bad.painting = vec![0; 99];
    assert_eq!(Engine::new(bad).err(), Some(NFTPixelboardError::SizeMismatch));

    assert!(Engine::new(config).is_ok());
}
