use coconut::context::{
    Account, CreateRentalListing, InitializeHotel, IssueCococTokens, MintTo, RentRoom,
    TokenAccount, Transfer, VerifyHotel,
};
use coconut::error::ErrorCode;
use coconut::identity::Identity;
use coconut::instructions::hotel::{initialize_hotel, verify_hotel, HotelVerified};
use coconut::instructions::rental::{
    create_rental_listing, rent_room, RentalListingCreated, RoomRented,
};
use coconut::instructions::token::{issue_coco_tokens, CocoTokensIssued, Issuance};
use coconut::state::{CocoMint, Hotel, RentalListing};

fn rec_id(tag: u8) -> Identity {
    Identity::new([tag; 32])
}

fn blank_hotel() -> Hotel {
    Hotel { owner: rec_id(0), name: String::new(), room_count: 0, is_verified: false }
}

fn hotel_named(name: &str, room_count: u16, is_verified: bool) -> Hotel {
    Hotel { owner: rec_id(51), name: name.to_string(), room_count, is_verified }
}

#[test]
fn identities_compare_by_their_bytes() {
    let mut bytes = [3u8; 32];
    assert_eq!(Identity::new(bytes), rec_id(3));
    assert_eq!(rec_id(3).to_bytes(), bytes);
    bytes[31] = 4;
    assert_ne!(Identity::new(bytes), rec_id(3));
    bytes[31] = 3;
    bytes[0] = 0;
    assert_ne!(Identity::new(bytes), rec_id(3));
}

#[test]
fn every_error_has_its_message() {
    assert_eq!(ErrorCode::InsufficientStakedAmount.message(), "Insufficient staked amount");
    assert_eq!(ErrorCode::InvalidRoomNumber.message(), "Invalid room number");
    assert_eq!(ErrorCode::InsufficientLiquidity.message(), "Insufficient liquidity");
    assert_eq!(ErrorCode::SlippageExceeded.message(), "Slippage tolerance exceeded");
    assert_eq!(ErrorCode::InvalidEncryptedAmount.message(), "Invalid encrypted amount");
    assert_eq!(ErrorCode::Unauthorized.message(), "Unauthorized operation");
    assert_eq!(ErrorCode::Overflow.message(), "Arithmetic overflow");
    assert_eq!(ErrorCode::InsufficientFunds.message(), "Insufficient funds");
    assert_eq!(ErrorCode::InvalidRoomCount.message(), "Invalid room count");
    assert_eq!(ErrorCode::ConfidentialTransferFailed.message(), "Confidential transfer failed");
}

#[test]
fn initialize_hotel_fills_the_record() {
    let mut ctx = InitializeHotel {
        hotel: Account { key: rec_id(50), data: hotel_named("old", 9, true) },
        owner: rec_id(51),
    };
    assert_eq!(initialize_hotel(&mut ctx, "Palm Court".to_string(), 12), Ok(()));
    assert_eq!(ctx.hotel.data, hotel_named("Palm Court", 12, false));
    assert_eq!(ctx.hotel.key, rec_id(50));
    assert_eq!(ctx.owner, rec_id(51));
}

#[test]
fn initialize_hotel_without_rooms_is_refused() {
    let mut ctx =
        InitializeHotel { hotel: Account { key: rec_id(50), data: blank_hotel() }, owner: rec_id(51) };
    let before = ctx.clone();
    assert_eq!(
        initialize_hotel(&mut ctx, "Palm Court".to_string(), 0),
        Err(ErrorCode::InvalidRoomCount)
    );
    assert_eq!(ctx, before);
    assert_eq!(initialize_hotel(&mut ctx, String::new(), 1), Ok(()));
    assert_eq!(initialize_hotel(&mut ctx, String::new(), u16::MAX), Ok(()));
}

#[test]
fn verify_hotel_marks_the_record_and_reports_its_owner() {
    let mut ctx = VerifyHotel {
        hotel: Account { key: rec_id(50), data: hotel_named("Palm Court", 12, false) },
        owner: rec_id(51),
        authority: rec_id(52),
    };
    let event = verify_hotel(&mut ctx);
    assert_eq!(event, HotelVerified { hotel: rec_id(50), owner: rec_id(51) });
    assert_eq!(ctx.hotel.data, hotel_named("Palm Court", 12, true));
    assert_eq!(verify_hotel(&mut ctx), event);
    assert_eq!(ctx.hotel.data, hotel_named("Palm Court", 12, true));
}

fn rent_ctx(room_count: u16) -> RentRoom {
    RentRoom {
        hotel: Account { key: rec_id(50), data: hotel_named("Palm Court", room_count, true) },
        renter: rec_id(60),
        renter_usdc_account: TokenAccount { key: rec_id(61), mint: rec_id(2) },
        hotel_owner_usdc_account: TokenAccount { key: rec_id(62), mint: rec_id(2) },
    }
}

#[test]
fn rent_room_orders_the_payment_to_the_owner() {
    let ctx = rent_ctx(12);
    let settlement = rent_room(&ctx, 7, -3, 250).unwrap();
    assert_eq!(
        settlement.transfers,
        vec![Transfer { from: rec_id(61), to: rec_id(62), authority: rec_id(60), amount: 250 }]
    );
    assert_eq!(
        settlement.event,
        RoomRented {
            hotel: rec_id(50),
            renter: rec_id(60),
            room_number: 7,
            duration: -3,
            amount: 250
        }
    );
}

#[test]
fn rent_room_takes_every_number_up_to_the_room_count() {
    let ctx = rent_ctx(12);
    assert!(rent_room(&ctx, 0, 1, 1).is_ok());
    assert!(rent_room(&ctx, 12, 1, 1).is_ok());
    assert_eq!(rent_room(&ctx, 13, 1, 1), Err(ErrorCode::InvalidRoomNumber));
    assert_eq!(rent_room(&ctx, u16::MAX, 1, 1), Err(ErrorCode::InvalidRoomNumber));
    assert!(rent_room(&rent_ctx(0), 0, 1, 1).is_ok());
    assert_eq!(rent_room(&rent_ctx(0), 1, 1, 1), Err(ErrorCode::InvalidRoomNumber));
}

#[test]
fn create_rental_listing_fills_the_record() {
    let stale = RentalListing { owner: rec_id(0), room_number: 1, price: 2, is_active: false };
    let mut ctx = CreateRentalListing {
        rental_listing: Account { key: rec_id(70), data: stale },
        owner: rec_id(71),
    };
    let event = create_rental_listing(&mut ctx, 4, 999);
    assert_eq!(
        event,
        RentalListingCreated { listing: rec_id(70), owner: rec_id(71), room_number: 4, price: 999 }
    );
    assert_eq!(
        ctx.rental_listing.data,
        RentalListing { owner: rec_id(71), room_number: 4, price: 999, is_active: true }
    );
}

fn issue_ctx(authority: u8, total_supply: u64) -> IssueCococTokens {
    IssueCococTokens {
        coco_mint: Account {
            key: rec_id(80),
            data: CocoMint { authority: rec_id(81), total_supply },
        },
        token_account: TokenAccount { key: rec_id(82), mint: rec_id(1) },
        coco_token_mint: rec_id(1),
        authority: rec_id(authority),
    }
}

#[test]
fn issue_coco_tokens_grows_the_supply_and_orders_the_minting() {
    let mut ctx = issue_ctx(81, 1_000);
    assert_eq!(
        issue_coco_tokens(&mut ctx, 234),
        Ok(Issuance {
            mint_to: MintTo { mint: rec_id(1), to: rec_id(82), authority: rec_id(81), amount: 234 },
            event: CocoTokensIssued { amount: 234, recipient: rec_id(82) },
        })
    );
    assert_eq!(ctx, issue_ctx(81, 1_234));
}

#[test]
fn issue_coco_tokens_by_anyone_else_is_refused() {
    let mut ctx = issue_ctx(83, 1_000);
    assert_eq!(issue_coco_tokens(&mut ctx, 234), Err(ErrorCode::Unauthorized));
    assert_eq!(ctx, issue_ctx(83, 1_000));
    let mut both = issue_ctx(83, u64::MAX);
    assert_eq!(issue_coco_tokens(&mut both, 1), Err(ErrorCode::Unauthorized));
}

#[test]
fn issue_coco_tokens_beyond_u64_is_refused() {
    let mut ctx = issue_ctx(81, u64::MAX);
    assert_eq!(issue_coco_tokens(&mut ctx, 1), Err(ErrorCode::Overflow));
    assert_eq!(ctx, issue_ctx(81, u64::MAX));
    assert!(issue_coco_tokens(&mut ctx, 0).is_ok());
}
