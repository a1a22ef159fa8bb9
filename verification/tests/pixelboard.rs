//! End-to-end tests: the engine driven together with in-memory stand-ins
//! for the payment ledger and the token registry. The stand-ins deduplicate
//! on transaction identifiers, as the real services do, and the token
//! registry outlives board re-initializations.

use nft_pixelboard::{
    ActionOutcome, Engine, ExternalAction, InitNFTPixelboard, NFTPixelboardAction,
    NFTPixelboardError, NFTPixelboardEvent, NFTPixelboardState, NFTPixelboardStateReply, Rectangle,
    Token, TokenInfo, TokenMetadata, MAX_PIXEL_PRICE,
};

const FOREIGN_USER: u64 = 12345;
const OWNER: u64 = 54321;
const USER: [u64; 2] = [111, 222];
const FT_PROGRAM: u64 = 2;
const NFT_PROGRAM: u64 = 3;

fn metadata() -> TokenMetadata {
    TokenMetadata {
        name: String::new(),
        description: String::new(),
        media: String::new(),
        reference: String::new(),
    }
}

/// Stand-in for the fungible-payment ledger. Requests are deduplicated on
/// the sending board and the transaction identifier, so a redeployed board
/// starts with a clean slate.
struct Ledger {
    accounts: Vec<(u64, u128)>,
    seen: Vec<(u64, u64)>,
}

impl Ledger {
    fn new() -> Ledger {
        Ledger { accounts: Vec::new(), seen: Vec::new() }
    }

    fn mint(&mut self, who: u64, amount: u128) {
        for entry in self.accounts.iter_mut() {
            if entry.0 == who {
                entry.1 += amount;
                return;
            }
        }
        self.accounts.push((who, amount));
    }

    fn balance(&self, who: u64) -> u128 {
        for entry in self.accounts.iter() {
            if entry.0 == who {
                return entry.1;
            }
        }
        0
    }

    /// Applies a transfer once per board and transaction identifier; a
    /// redelivered request is acknowledged without moving money again.
    fn transfer(&mut self, board: u64, tx: u64, from: u64, to: u64, amount: u128) -> bool {
        if self.seen.contains(&(board, tx)) {
            return true;
        }
        if self.balance(from) < amount {
            return false;
        }
        self.seen.push((board, tx));
        for entry in self.accounts.iter_mut() {
            if entry.0 == from {
                entry.1 -= amount;
            }
        }
        self.mint(to, amount);
        true
    }
}

/// Stand-in for the ownership token registry; token identifiers are
/// assigned sequentially.
struct NftService {
    next_id: u128,
    owners: Vec<(u128, u64)>,
    seen: Vec<(u64, u64, u128)>,
}

impl NftService {
    fn new() -> NftService {
        NftService { next_id: 0, owners: Vec::new(), seen: Vec::new() }
    }

    /// Mints once per board and transaction identifier; a redelivered
    /// request is answered with the token already minted for it.
    fn mint(&mut self, board: u64, tx: u64, to: u64) -> Option<u128> {
        for entry in self.seen.iter() {
            if entry.0 == board && entry.1 == tx {
                return Some(entry.2);
            }
        }
        let id = self.next_id;
        self.next_id += 1;
        self.owners.push((id, to));
        self.seen.push((board, tx, id));
        Some(id)
    }

    fn transfer(&mut self, _tx: u64, token: u128, to: u64) -> bool {
        for entry in self.owners.iter_mut() {
            if entry.0 == token {
                entry.1 = to;
                return true;
            }
        }
        false
    }

    fn owner(&self, token: u128) -> u64 {
        for entry in self.owners.iter() {
            if entry.0 == token {
                return entry.1;
            }
        }
        0
    }
}

/// The engine plus both service stand-ins, with the settlement loop the
/// deployment would run.
struct World {
    engine: Engine,
    ledger: Ledger,
    nft: NftService,
    /// A stand-in for the board's actor address, distinguishing successive
    /// deployments in the services' deduplication caches.
    board: u64,
}

fn default_config() -> InitNFTPixelboard {
    InitNFTPixelboard {
        owner: OWNER,
        min_block_side_length: 10,
        pixel_price: MAX_PIXEL_PRICE,
        resolution: (10, 10).into(),
        resale_commission_percentage: 100,
        painting: vec![0; 100],
        ft_program: FT_PROGRAM,
        nft_program: NFT_PROGRAM,
    }
}

impl World {
    fn initialize() -> World {
        World {
            engine: Engine::new(default_config()).unwrap(),
            ledger: Ledger::new(),
            nft: NftService::new(),
            board: 0,
        }
    }

    fn initialize_custom(config: InitNFTPixelboard) -> World {
        World {
            engine: Engine::new(config).unwrap(),
            ledger: Ledger::new(),
            nft: NftService::new(),
            board: 0,
        }
    }

    /// Replaces the board but keeps both external services, as a fresh
    /// deployment against the same ledger and token registry would.
    fn redeploy(&mut self, config: InitNFTPixelboard) {
        self.engine = Engine::new(config).unwrap();
        self.board += 1;
    }

    fn pay(&mut self, action: &ExternalAction) -> bool {
        match action {
            ExternalAction::TransferFtokens { transaction_id, sender, recipient, amount } => {
                self.ledger.transfer(self.board, *transaction_id, *sender, *recipient, *amount)
            },
            _ => panic!("expected a payment request"),
        }
    }

    fn mint(
        &mut self,
        from: u64,
        painting: Vec<u8>,
        rectangle: Rectangle,
    ) -> Result<u128, NFTPixelboardError> {
        let (op_id, payment) = self.engine.begin_mint(from, rectangle, metadata(), painting)?;
        let paid = self.pay(&payment);
        let mint_request = self.engine.mint_payment_reply(op_id, paid)?;
        let minted = match &mint_request {
            ExternalAction::MintNft { transaction_id, to, .. } => {
                self.nft.mint(self.board, *transaction_id, *to)
            },
            _ => panic!("expected an ownership mint request"),
        };
        match self.engine.mint_ownership_reply(op_id, minted)? {
            NFTPixelboardEvent::Minted(id) => Ok(id),
            _ => panic!("expected a Minted event"),
        }
    }

    fn buy(&mut self, from: u64, token_id: u128) -> Result<u128, NFTPixelboardError> {
        let (op_id, commission) = self.engine.begin_buy(from, token_id)?;
        let commission_paid = self.pay(&commission);
        let remainder = self.engine.buy_commission_reply(op_id, commission_paid)?;
        let remainder_paid = self.pay(&remainder);
        let handover = self.engine.buy_remainder_reply(op_id, remainder_paid)?;
        let moved = match &handover {
            ExternalAction::TransferNft { transaction_id, token_id, to } => {
                self.nft.transfer(*transaction_id, *token_id, *to)
            },
            _ => panic!("expected an ownership transfer request"),
        };
        match self.engine.buy_ownership_reply(op_id, moved)? {
            NFTPixelboardEvent::Bought(id) => Ok(id),
            _ => panic!("expected a Bought event"),
        }
    }

    fn put_up_for_sale(
        &mut self,
        from: u64,
        token_id: u128,
        pixel_price: u128,
    ) -> Result<u128, NFTPixelboardError> {
        match self.engine.put_up_for_sale(from, token_id, pixel_price)? {
            NFTPixelboardEvent::SaleStateChanged(id) => Ok(id),
            _ => panic!("expected a SaleStateChanged event"),
        }
    }

    fn paint(
        &mut self,
        from: u64,
        token_id: u128,
        painting: Vec<u8>,
    ) -> Result<u128, NFTPixelboardError> {
        match self.engine.paint(from, token_id, painting)? {
            NFTPixelboardEvent::Painted(id) => Ok(id),
            _ => panic!("expected a Painted event"),
        }
    }
}

#[test]
fn minting_failures() {
    let mut world = World::initialize();
    world.ledger.mint(FOREIGN_USER, MAX_PIXEL_PRICE * 25);

    let default_painting = vec![0; 25];
    let default_rectangle: Rectangle = ((3, 3), (8, 8)).into();

    // The coordinates are mixed up.
    assert!(world.mint(FOREIGN_USER, default_painting.clone(), ((8, 3), (3, 8)).into()).is_err());
    assert!(world.mint(FOREIGN_USER, default_painting.clone(), ((8, 8), (3, 3)).into()).is_err());
    assert!(world.mint(FOREIGN_USER, default_painting.clone(), ((3, 8), (8, 3)).into()).is_err());
    assert!(world.mint(FOREIGN_USER, default_painting.clone(), ((3, 3), (11, 11)).into()).is_err());
    assert!(world.mint(FOREIGN_USER, default_painting.clone(), ((11, 11), (8, 8)).into()).is_err());

    // The pixel count in a painting must equal the count in the token.
    assert!(world.mint(FOREIGN_USER, vec![0; 24], default_rectangle).is_err());
    assert!(world.mint(FOREIGN_USER, vec![0; 26], default_rectangle).is_err());

    assert_eq!(world.mint(FOREIGN_USER, default_painting.clone(), default_rectangle), Ok(0));

    // The given rectangle collides with an existing one.
    assert!(world.mint(FOREIGN_USER, default_painting.clone(), default_rectangle).is_err());
    assert!(world.mint(FOREIGN_USER, default_painting.clone(), ((0, 0), (5, 5)).into()).is_err());
    assert!(world.mint(FOREIGN_USER, default_painting.clone(), ((5, 0), (10, 5)).into()).is_err());
    assert!(world.mint(FOREIGN_USER, default_painting.clone(), ((0, 5), (5, 10)).into()).is_err());
    assert!(world.mint(FOREIGN_USER, default_painting, ((5, 5), (10, 10)).into()).is_err());
}

#[test]
fn painting_failures() {
    let mut world = World::initialize();
    world.ledger.mint(USER[0], MAX_PIXEL_PRICE * 25);

    assert_eq!(world.mint(USER[0], vec![0; 25], ((3, 3), (8, 8)).into()), Ok(0));

    // USER[1] is not the owner of the token.
    assert!(world.paint(USER[1], 0, vec![0; 25]).is_err());
    // The painting's length must equal the pixel count of the token.
    assert!(world.paint(USER[0], 0, vec![0; 24]).is_err());
    assert!(world.paint(USER[0], 0, vec![0; 26]).is_err());
}

#[test]
fn painting() {
    let mut world = World::initialize();
    world.ledger.mint(FOREIGN_USER, MAX_PIXEL_PRICE * (25 + 7 + 20 + 1));

    assert_eq!(world.mint(FOREIGN_USER, vec![0; 25], ((3, 3), (8, 8)).into()), Ok(0));
    assert_eq!(
        world.paint(
            FOREIGN_USER,
            0,
            vec![
                1, 0, 7, 0, 1,
                0, 7, 0, 7, 0,
                7, 0, 0, 0, 7,
                0, 7, 0, 7, 0,
                1, 0, 7, 0, 1,
            ],
        ),
        Ok(0)
    );
    assert_eq!(world.engine.painting(), vec![
        0, 0, 0, 0, 0, 0, 0, 0, 0, 0,
        0, 0, 0, 0, 0, 0, 0, 0, 0, 0,
        0, 0, 0, 0, 0, 0, 0, 0, 0, 0,
        0, 0, 0, 1, 0, 7, 0, 1, 0, 0,
        0, 0, 0, 0, 7, 0, 7, 0, 0, 0,
        0, 0, 0, 7, 0, 0, 0, 7, 0, 0,
        0, 0, 0, 0, 7, 0, 7, 0, 0, 0,
        0, 0, 0, 1, 0, 7, 0, 1, 0, 0,
        0, 0, 0, 0, 0, 0, 0, 0, 0, 0,
        0, 0, 0, 0, 0, 0, 0, 0, 0, 0,
    ]);

    assert_eq!(world.mint(FOREIGN_USER, vec![0; 7], ((3, 9), (10, 10)).into()), Ok(1));
    assert_eq!(world.paint(FOREIGN_USER, 1, vec![4, 4, 4, 4, 4, 4, 4]), Ok(1));
    assert_eq!(world.engine.painting(), vec![
        0, 0, 0, 0, 0, 0, 0, 0, 0, 0,
        0, 0, 0, 0, 0, 0, 0, 0, 0, 0,
        0, 0, 0, 0, 0, 0, 0, 0, 0, 0,
        0, 0, 0, 1, 0, 7, 0, 1, 0, 0,
        0, 0, 0, 0, 7, 0, 7, 0, 0, 0,
        0, 0, 0, 7, 0, 0, 0, 7, 0, 0,
        0, 0, 0, 0, 7, 0, 7, 0, 0, 0,
        0, 0, 0, 1, 0, 7, 0, 1, 0, 0,
        0, 0, 0, 0, 0, 0, 0, 0, 0, 0,
        0, 0, 0, 4, 4, 4, 4, 4, 4, 4,
    ]);

    assert_eq!(world.mint(FOREIGN_USER, vec![0; 20], ((0, 0), (2, 10)).into()), Ok(2));
    assert_eq!(
        world.paint(
            FOREIGN_USER,
            2,
            vec![
                8, 9,
                9, 8,
                8, 9,
                9, 8,
                8, 9,
                9, 8,
                8, 9,
                9, 8,
                8, 9,
                9, 8,
            ],
        ),
        Ok(2)
    );
    assert_eq!(world.engine.painting(), vec![
        8, 9, 0, 0, 0, 0, 0, 0, 0, 0,
        9, 8, 0, 0, 0, 0, 0, 0, 0, 0,
        8, 9, 0, 0, 0, 0, 0, 0, 0, 0,
        9, 8, 0, 1, 0, 7, 0, 1, 0, 0,
        8, 9, 0, 0, 7, 0, 7, 0, 0, 0,
        9, 8, 0, 7, 0, 0, 0, 7, 0, 0,
        8, 9, 0, 0, 7, 0, 7, 0, 0, 0,
        9, 8, 0, 1, 0, 7, 0, 1, 0, 0,
        8, 9, 0, 0, 0, 0, 0, 0, 0, 0,
        9, 8, 0, 4, 4, 4, 4, 4, 4, 4,
    ]);

    assert_eq!(world.mint(FOREIGN_USER, vec![0], ((9, 0), (10, 1)).into()), Ok(3));
    assert_eq!(world.paint(FOREIGN_USER, 3, vec![3]), Ok(3));
    assert_eq!(world.engine.painting(), vec![
        8, 9, 0, 0, 0, 0, 0, 0, 0, 3,
        9, 8, 0, 0, 0, 0, 0, 0, 0, 0,
        8, 9, 0, 0, 0, 0, 0, 0, 0, 0,
        9, 8, 0, 1, 0, 7, 0, 1, 0, 0,
        8, 9, 0, 0, 7, 0, 7, 0, 0, 0,
        9, 8, 0, 7, 0, 0, 0, 7, 0, 0,
        8, 9, 0, 0, 7, 0, 7, 0, 0, 0,
        9, 8, 0, 1, 0, 7, 0, 1, 0, 0,
        8, 9, 0, 0, 0, 0, 0, 0, 0, 0,
        9, 8, 0, 4, 4, 4, 4, 4, 4, 4,
    ]);

    // A few extreme cases...

    world.ledger.mint(FOREIGN_USER, MAX_PIXEL_PRICE * (1 + 10 + 10));

    // A one pixel canvas.
    let mut pixelboard_config = InitNFTPixelboard {
        ft_program: FT_PROGRAM,
        min_block_side_length: 1,
        nft_program: NFT_PROGRAM,
        owner: FOREIGN_USER,
        painting: vec![0],
        pixel_price: MAX_PIXEL_PRICE,
        resale_commission_percentage: 100,
        resolution: (1, 1).into(),
    };
    world.redeploy(pixelboard_config.clone());

    assert_eq!(world.mint(FOREIGN_USER, vec![0], ((0, 0), (1, 1)).into()), Ok(4));
    assert_eq!(world.paint(FOREIGN_USER, 4, vec![4]), Ok(4));
    assert_eq!(world.engine.painting(), vec![4]);

    // A one column canvas.
    pixelboard_config.resolution = (1, 10).into();
    pixelboard_config.painting = vec![0; 10];
    world.redeploy(pixelboard_config.clone());

    assert_eq!(world.mint(FOREIGN_USER, vec![0; 3], ((0, 2), (1, 5)).into()), Ok(5));
    assert_eq!(world.paint(FOREIGN_USER, 5, vec![1, 2, 3]), Ok(5));
    assert_eq!(world.engine.painting(), vec![0, 0, 1, 2, 3, 0, 0, 0, 0, 0]);

    // A one row canvas.
    pixelboard_config.resolution = (10, 1).into();
    world.redeploy(pixelboard_config);

    assert_eq!(world.mint(FOREIGN_USER, vec![0; 8], ((1, 0), (9, 1)).into()), Ok(6));
    assert_eq!(world.paint(FOREIGN_USER, 6, vec![8, 7, 6, 5, 4, 3, 2, 1]), Ok(6));
    assert_eq!(world.engine.painting(), vec![0, 8, 7, 6, 5, 4, 3, 2, 1, 0]);
}

#[test]
fn reselling() {
    let mut world = World::initialize_custom(InitNFTPixelboard {
        ft_program: FT_PROGRAM,
        min_block_side_length: 1,
        nft_program: NFT_PROGRAM,
        owner: OWNER,
        painting: vec![0; 100],
        pixel_price: MAX_PIXEL_PRICE,
        resale_commission_percentage: 13,
        resolution: (10, 10).into(),
    });
    world.ledger.mint(USER[0], MAX_PIXEL_PRICE * 25);
    world.ledger.mint(USER[1], MAX_PIXEL_PRICE * 25);

    let mut token = Token(
        ((3, 3), (8, 8)).into(),
        TokenInfo { owner: USER[0], token_id: 0, pixel_price: Some(MAX_PIXEL_PRICE) },
    );

    assert_eq!(world.mint(USER[0], vec![0; 25], token.0), Ok(0));
    assert_eq!(world.put_up_for_sale(USER[0], 0, MAX_PIXEL_PRICE), Ok(0));

    assert_eq!(world.engine.token_info(0), Some(token));

    assert_eq!(world.buy(USER[1], 0), Ok(0));
    token.1.owner = USER[1];
    token.1.pixel_price = None;

    let commission = MAX_PIXEL_PRICE * 25 * 13 / 100;
    assert_eq!(world.ledger.balance(OWNER), MAX_PIXEL_PRICE * 25 + commission);
    assert_eq!(world.ledger.balance(USER[0]), MAX_PIXEL_PRICE * 25 - commission);
    assert_eq!(world.ledger.balance(USER[1]), 0);
    assert_eq!(world.nft.owner(0), USER[1]);
    assert_eq!(world.engine.token_info(0), Some(token));
}

#[test]
fn reselling_failures() {
    let mut world = World::initialize_custom(InitNFTPixelboard {
        ft_program: FT_PROGRAM,
        min_block_side_length: 1,
        nft_program: NFT_PROGRAM,
        owner: OWNER,
        painting: vec![0; 100],
        pixel_price: MAX_PIXEL_PRICE,
        resale_commission_percentage: 13,
        resolution: (10, 10).into(),
    });
    world.ledger.mint(USER[0], MAX_PIXEL_PRICE * 25);
    world.ledger.mint(USER[1], MAX_PIXEL_PRICE * 24);

    assert_eq!(world.mint(USER[0], vec![0; 25], ((3, 3), (8, 8)).into()), Ok(0));
    // FOREIGN_USER is not the owner of the token.
    assert!(world.put_up_for_sale(FOREIGN_USER, 0, MAX_PIXEL_PRICE).is_err());
    // The price must not exceed MAX_PIXEL_PRICE.
    assert!(world.put_up_for_sale(USER[0], 0, MAX_PIXEL_PRICE + 1).is_err());
    // The token is not for sale.
    assert!(world.buy(USER[1], 0).is_err());

    assert_eq!(world.put_up_for_sale(USER[0], 0, MAX_PIXEL_PRICE), Ok(0));

    // The token is already for sale.
    assert!(world.put_up_for_sale(USER[0], 0, MAX_PIXEL_PRICE).is_err());
    // USER[1] does not have enough tokens to buy the whole territory.
    assert!(world.buy(USER[1], 0).is_err());

    // But the commission is still debited, because USER[1] could afford it.
    let commission = MAX_PIXEL_PRICE * 25 * 13 / 100;
    assert_eq!(world.ledger.balance(USER[1]), MAX_PIXEL_PRICE * 24 - commission);
    assert_eq!(world.ledger.balance(OWNER), MAX_PIXEL_PRICE * 25 + commission);
}

#[test]
fn initialization_failures() {
    let pixelboard_config = InitNFTPixelboard {
        ft_program: FT_PROGRAM,
        min_block_side_length: 10,
        nft_program: NFT_PROGRAM,
        owner: FOREIGN_USER,
        painting: vec![0; 100],
        pixel_price: MAX_PIXEL_PRICE,
        resale_commission_percentage: 100,
        resolution: (10, 10).into(),
    };

    let mut failed_pixelboard_config = pixelboard_config.clone();
    failed_pixelboard_config.owner = 0;
    assert!(Engine::new(failed_pixelboard_config).is_err());

    failed_pixelboard_config = pixelboard_config.clone();
    failed_pixelboard_config.ft_program = 0;
    assert!(Engine::new(failed_pixelboard_config).is_err());

    failed_pixelboard_config = pixelboard_config.clone();
    failed_pixelboard_config.nft_program = 0;
    assert!(Engine::new(failed_pixelboard_config).is_err());

    failed_pixelboard_config = pixelboard_config.clone();
    failed_pixelboard_config.min_block_side_length = 0;
    assert!(Engine::new(failed_pixelboard_config).is_err());

    failed_pixelboard_config = pixelboard_config.clone();
    failed_pixelboard_config.resolution.width = 0;
    assert!(Engine::new(failed_pixelboard_config).is_err());

    failed_pixelboard_config = pixelboard_config.clone();
    failed_pixelboard_config.resolution.height = 0;
    assert!(Engine::new(failed_pixelboard_config).is_err());

    failed_pixelboard_config = pixelboard_config.clone();
    failed_pixelboard_config.resolution = (0, 0).into();
    assert!(Engine::new(failed_pixelboard_config).is_err());

    failed_pixelboard_config = pixelboard_config.clone();
    failed_pixelboard_config.resolution.width = 15;
    failed_pixelboard_config.painting = vec![1; 150];
    assert!(Engine::new(failed_pixelboard_config).is_err());

    failed_pixelboard_config = pixelboard_config.clone();
    failed_pixelboard_config.resolution.height = 15;
    failed_pixelboard_config.painting = vec![1; 150];
    assert!(Engine::new(failed_pixelboard_config).is_err());

    failed_pixelboard_config = pixelboard_config.clone();
    failed_pixelboard_config.resolution = (15, 15).into();
    failed_pixelboard_config.painting = vec![1; 225];
    assert!(Engine::new(failed_pixelboard_config).is_err());

    failed_pixelboard_config = pixelboard_config.clone();
    failed_pixelboard_config.resale_commission_percentage = 101;
    assert!(Engine::new(failed_pixelboard_config).is_err());

    failed_pixelboard_config = pixelboard_config.clone();
    failed_pixelboard_config.pixel_price = MAX_PIXEL_PRICE + 1;
    assert!(Engine::new(failed_pixelboard_config).is_err());

    failed_pixelboard_config = pixelboard_config.clone();
    failed_pixelboard_config.painting = vec![1; 101];
    assert!(Engine::new(failed_pixelboard_config).is_err());

    failed_pixelboard_config = pixelboard_config;
    failed_pixelboard_config.painting = vec![1; 99];
    assert!(Engine::new(failed_pixelboard_config).is_err());
}

#[test]
fn initialization_n_meta_state() {
    let pixelboard_config = InitNFTPixelboard {
        ft_program: FT_PROGRAM,
        min_block_side_length: 10,
        nft_program: NFT_PROGRAM,
        owner: FOREIGN_USER,
        painting: vec![0; 100],
        pixel_price: MAX_PIXEL_PRICE,
        resale_commission_percentage: 100,
        resolution: (10, 10).into(),
    };
    let engine = Engine::new(pixelboard_config.clone()).unwrap();

    assert_eq!(engine.ft_program(), pixelboard_config.ft_program);
    assert_eq!(engine.nft_program(), pixelboard_config.nft_program);
    assert_eq!(engine.min_block_side_length(), pixelboard_config.min_block_side_length);
    assert_eq!(engine.painting(), pixelboard_config.painting);
    assert_eq!(engine.pixel_price(), pixelboard_config.pixel_price);
    assert_eq!(
        engine.resale_commission_percentage(),
        pixelboard_config.resale_commission_percentage
    );
    assert_eq!(engine.resolution(), pixelboard_config.resolution);
}

#[test]
fn test() {
    let mut world = World::initialize_custom(InitNFTPixelboard {
        ft_program: 2,
        min_block_side_length: 10,
        nft_program: 3,
        owner: 123124,
        painting: vec![0; 2500],
        pixel_price: 1,
        resale_commission_percentage: 0,
        resolution: (50, 50).into(),
    });
    world.ledger.mint(123, 10000);

    assert_eq!(world.mint(123, vec![1; 100], ((20, 10), (30, 20)).into()), Ok(0));
    assert_eq!(world.mint(123, vec![7; 100], ((10, 20), (20, 30)).into()), Ok(1));

    let painting = world.engine.painting();
    for row in painting.chunks_exact(50) {
        println!("{row:?}");
    }

    let pixel = world.engine.pixel_info((10, 40).into());
    println!("{:?}", pixel);
    assert_eq!(pixel, None);

    let info = world.engine.token_info(12);
    println!("{:?}", info);
    assert_eq!(info, None);
}

#[test]
fn mint_at_price_bound_returns_first_token() {
    // Canvas 10x10, block side 10, price at the bound: a 25-pixel territory
    // mints cleanly and receives token id 0.
    let mut world = World::initialize();
    world.ledger.mint(FOREIGN_USER, MAX_PIXEL_PRICE * 25);

    assert_eq!(world.mint(FOREIGN_USER, vec![0; 25], ((3, 3), (8, 8)).into()), Ok(0));
    assert_eq!(world.ledger.balance(OWNER), MAX_PIXEL_PRICE * 25);
    assert_eq!(world.ledger.balance(FOREIGN_USER), 0);
}

#[test]
fn overlapping_mint_reports_overlap() {
    let mut world = World::initialize();
    world.ledger.mint(FOREIGN_USER, MAX_PIXEL_PRICE * 50);

    // Mixed-up corners are a geometry error, not an overlap.
    assert_eq!(
        world.mint(FOREIGN_USER, vec![0; 25], ((8, 3), (3, 8)).into()),
        Err(NFTPixelboardError::InvalidGeometry)
    );
    assert_eq!(world.mint(FOREIGN_USER, vec![0; 25], ((3, 3), (8, 8)).into()), Ok(0));
    // (0,0)-(5,5) intersects (3,3)-(8,8) on x in [3,5), y in [3,5).
    assert_eq!(
        world.mint(FOREIGN_USER, vec![0; 25], ((0, 0), (5, 5)).into()),
        Err(NFTPixelboardError::Overlap)
    );
    // Sharing only an edge is not a collision.
    assert_eq!(world.mint(FOREIGN_USER, vec![0; 6], ((0, 0), (3, 2)).into()), Ok(1));
}

#[test]
fn painting_errors_name_their_cause() {
    let mut world = World::initialize();
    world.ledger.mint(USER[0], MAX_PIXEL_PRICE * 25);

    assert_eq!(world.mint(USER[0], vec![0; 25], ((3, 3), (8, 8)).into()), Ok(0));
    assert_eq!(world.paint(USER[0], 0, vec![0; 24]), Err(NFTPixelboardError::SizeMismatch));
    assert_eq!(world.paint(USER[1], 0, vec![0; 25]), Err(NFTPixelboardError::Unauthorized));
    assert_eq!(world.paint(USER[0], 7, vec![0; 25]), Err(NFTPixelboardError::NotFound));
}

#[test]
fn listing_price_bound_is_exact() {
    let mut world = World::initialize();
    world.ledger.mint(USER[0], MAX_PIXEL_PRICE * 25);

    assert_eq!(world.mint(USER[0], vec![0; 25], ((3, 3), (8, 8)).into()), Ok(0));
    // Nothing can be bought before a listing exists.
    assert_eq!(world.buy(USER[1], 0), Err(NFTPixelboardError::NotForSale));
    assert_eq!(
        world.put_up_for_sale(USER[0], 0, MAX_PIXEL_PRICE + 1),
        Err(NFTPixelboardError::PriceTooHigh)
    );
    assert_eq!(world.put_up_for_sale(USER[0], 0, MAX_PIXEL_PRICE), Ok(0));
    assert_eq!(
        world.put_up_for_sale(USER[0], 0, MAX_PIXEL_PRICE),
        Err(NFTPixelboardError::AlreadyForSale)
    );
}

#[test]
fn failed_remainder_still_debits_commission() {
    // The buyer can afford the commission but not the seller's remainder:
    // the commission still moves to the platform owner, the remainder leg
    // fails, and ownership and sale state are unchanged.
    let mut world = World::initialize_custom(InitNFTPixelboard {
        ft_program: FT_PROGRAM,
        min_block_side_length: 1,
        nft_program: NFT_PROGRAM,
        owner: OWNER,
        painting: vec![0; 100],
        pixel_price: 100,
        resale_commission_percentage: 10,
        resolution: (10, 10).into(),
    });
    world.ledger.mint(USER[0], 2500);
    // Total on resale: 25 pixels * 100 = 2500; commission 250.
    world.ledger.mint(USER[1], 300);

    assert_eq!(world.mint(USER[0], vec![0; 25], ((3, 3), (8, 8)).into()), Ok(0));
    assert_eq!(world.put_up_for_sale(USER[0], 0, 100), Ok(0));

    assert_eq!(world.buy(USER[1], 0), Err(NFTPixelboardError::FTokensTransferFailed));

    assert_eq!(world.ledger.balance(USER[1]), 300 - 250);
    assert_eq!(world.ledger.balance(OWNER), 2500 + 250);
    assert_eq!(world.nft.owner(0), USER[0]);
    let info = world.engine.token_info(0).unwrap();
    assert_eq!(info.1.owner, USER[0]);
    assert_eq!(info.1.pixel_price, Some(100));
}

#[test]
fn redelivered_replies_and_requests_are_deduplicated() {
    // Replaying an applied operation's request to the ledger does not
    // double-debit, and replaying its reply to the engine is rejected
    // without a state change.
    let mut world = World::initialize();
    world.ledger.mint(FOREIGN_USER, MAX_PIXEL_PRICE * 25);

    let (op_id, payment) = world
        .engine
        .begin_mint(FOREIGN_USER, ((3, 3), (8, 8)).into(), metadata(), vec![0; 25])
        .unwrap();
    assert!(world.pay(&payment));
    let mint_request = world.engine.mint_payment_reply(op_id, true).unwrap();
    let minted = match &mint_request {
        ExternalAction::MintNft { transaction_id, to, .. } => {
            world.nft.mint(world.board, *transaction_id, *to)
        },
        _ => panic!("expected an ownership mint request"),
    };
    assert_eq!(
        world.engine.mint_ownership_reply(op_id, minted),
        Ok(NFTPixelboardEvent::Minted(0))
    );
    let balance_after = world.ledger.balance(FOREIGN_USER);

    // The payment request is delivered a second time: the ledger
    // deduplicates on the transaction identifier.
    assert!(world.pay(&payment));
    assert_eq!(world.ledger.balance(FOREIGN_USER), balance_after);

    // The replies are delivered a second time: the operation is finished,
    // so the engine rejects them and mints nothing twice.
    assert_eq!(
        world.engine.mint_payment_reply(op_id, true).err(),
        Some(NFTPixelboardError::NotFound)
    );
    assert_eq!(
        world.engine.mint_ownership_reply(op_id, minted),
        Err(NFTPixelboardError::NotFound)
    );
    assert!(world.engine.token_info(0).is_some());
    assert!(world.engine.token_info(1).is_none());
}

#[test]
fn pending_settlement_blocks_conflicts() {
    let mut world = World::initialize();
    world.ledger.mint(USER[0], MAX_PIXEL_PRICE * 50);
    world.ledger.mint(USER[1], MAX_PIXEL_PRICE * 50);

    assert_eq!(world.mint(USER[0], vec![0; 25], ((3, 3), (8, 8)).into()), Ok(0));
    assert_eq!(world.put_up_for_sale(USER[0], 0, MAX_PIXEL_PRICE), Ok(0));

    // A mint suspended at its payment leg blocks overlapping mints, but
    // not disjoint ones.
    let (mint_op, _) = world
        .engine
        .begin_mint(USER[0], ((0, 0), (3, 3)).into(), metadata(), vec![0; 9])
        .unwrap();
    assert_eq!(
        world
            .engine
            .begin_mint(USER[1], ((0, 0), (2, 2)).into(), metadata(), vec![0; 4])
            .map(|_| ()),
        Err(NFTPixelboardError::Busy)
    );
    assert!(world.engine.begin_mint(USER[1], ((8, 8), (10, 10)).into(), metadata(), vec![0; 4]).is_ok());

    // A resale suspended at its commission leg blocks every mutation of
    // its token.
    let (buy_op, _) = world.engine.begin_buy(USER[1], 0).unwrap();
    assert_eq!(
        world.engine.begin_buy(USER[1], 0).map(|_| ()),
        Err(NFTPixelboardError::Busy)
    );
    assert_eq!(
        world.engine.paint(USER[0], 0, vec![0; 25]),
        Err(NFTPixelboardError::Busy)
    );
    assert_eq!(
        world.engine.put_up_for_sale(USER[0], 0, MAX_PIXEL_PRICE),
        Err(NFTPixelboardError::Busy)
    );

    // An aborted leg releases the marker.
    assert_eq!(
        world.engine.mint_payment_reply(mint_op, false).err(),
        Some(NFTPixelboardError::FTokensTransferFailed)
    );
    assert!(world.engine.begin_mint(USER[1], ((1, 1), (3, 3)).into(), metadata(), vec![0; 4]).is_ok());
    assert_eq!(
        world.engine.buy_commission_reply(buy_op, false).err(),
        Some(NFTPixelboardError::FTokensTransferFailed)
    );
    assert!(world.engine.paint(USER[0], 0, vec![0; 25]).is_ok());
}

#[test]
fn failed_external_legs_surface_their_errors() {
    let mut world = World::initialize();
    // No funds: the minting fee transfer fails and nothing is registered.
    assert_eq!(
        world.mint(FOREIGN_USER, vec![0; 25], ((3, 3), (8, 8)).into()),
        Err(NFTPixelboardError::FTokensTransferFailed)
    );
    assert!(world.engine.token_info(0).is_none());

    // A refused ownership mint after a confirmed payment reports
    // NFTMintFailed; the fee is not refunded.
    world.ledger.mint(FOREIGN_USER, MAX_PIXEL_PRICE * 25);
    let (op_id, payment) = world
        .engine
        .begin_mint(FOREIGN_USER, ((3, 3), (8, 8)).into(), metadata(), vec![0; 25])
        .unwrap();
    assert!(world.pay(&payment));
    world.engine.mint_payment_reply(op_id, true).unwrap();
    assert_eq!(
        world.engine.mint_ownership_reply(op_id, None),
        Err(NFTPixelboardError::NFTMintFailed)
    );
    assert!(world.engine.token_info(0).is_none());
    assert_eq!(world.ledger.balance(FOREIGN_USER), 0);

    // A refused ownership transfer after both payments reports
    // NFTTransferFailed and leaves the record unchanged.
    world.ledger.mint(USER[0], MAX_PIXEL_PRICE * 25);
    world.ledger.mint(USER[1], MAX_PIXEL_PRICE * 25);
    assert_eq!(world.mint(USER[0], vec![0; 25], ((3, 3), (8, 8)).into()), Ok(0));
    assert_eq!(world.put_up_for_sale(USER[0], 0, MAX_PIXEL_PRICE), Ok(0));
    let (buy_op, commission) = world.engine.begin_buy(USER[1], 0).unwrap();
    let paid = world.pay(&commission);
    let remainder = world.engine.buy_commission_reply(buy_op, paid).unwrap();
    let paid2 = world.pay(&remainder);
    world.engine.buy_remainder_reply(buy_op, paid2).unwrap();
    assert_eq!(
        world.engine.buy_ownership_reply(buy_op, false),
        Err(NFTPixelboardError::NFTTransferFailed)
    );
    let info = world.engine.token_info(0).unwrap();
    assert_eq!(info.1.owner, USER[0]);
    assert_eq!(info.1.pixel_price, Some(MAX_PIXEL_PRICE));
}

#[test]
fn state_queries_answer_from_the_board() {
    let mut world = World::initialize();
    world.ledger.mint(FOREIGN_USER, MAX_PIXEL_PRICE * 25);
    assert_eq!(world.mint(FOREIGN_USER, vec![0; 25], ((3, 3), (8, 8)).into()), Ok(0));

    assert_eq!(
        world.engine.state_query(NFTPixelboardState::Resolution),
        NFTPixelboardStateReply::Resolution((10, 10).into())
    );
    assert_eq!(
        world.engine.state_query(NFTPixelboardState::PixelPrice),
        NFTPixelboardStateReply::PixelPrice(MAX_PIXEL_PRICE)
    );
    assert_eq!(
        world.engine.state_query(NFTPixelboardState::MinBlockSideLength),
        NFTPixelboardStateReply::MinBlockSideLength(10)
    );
    assert_eq!(
        world.engine.state_query(NFTPixelboardState::ResaleCommissionPercentage),
        NFTPixelboardStateReply::ResaleCommissionPercentage(100)
    );
    assert_eq!(
        world.engine.state_query(NFTPixelboardState::FTProgram),
        NFTPixelboardStateReply::FTProgram(FT_PROGRAM)
    );
    assert_eq!(
        world.engine.state_query(NFTPixelboardState::NFTProgram),
        NFTPixelboardStateReply::NFTProgram(NFT_PROGRAM)
    );
    assert_eq!(
        world.engine.state_query(NFTPixelboardState::Painting),
        NFTPixelboardStateReply::Painting(vec![0; 100])
    );

    let expected = Token(
        ((3, 3), (8, 8)).into(),
        TokenInfo { owner: FOREIGN_USER, token_id: 0, pixel_price: None },
    );
    assert_eq!(
        world.engine.state_query(NFTPixelboardState::PixelInfo((4, 4).into())),
        NFTPixelboardStateReply::PixelInfo(expected)
    );
    assert_eq!(
        world.engine.state_query(NFTPixelboardState::TokenInfo(0)),
        NFTPixelboardStateReply::TokenInfo(expected)
    );
    // A miss answers with the zeroed token.
    let zeroed = Token(
        ((0, 0), (0, 0)).into(),
        TokenInfo { owner: 0, token_id: 0, pixel_price: None },
    );
    assert_eq!(
        world.engine.state_query(NFTPixelboardState::PixelInfo((0, 0).into())),
        NFTPixelboardStateReply::PixelInfo(zeroed)
    );
    assert_eq!(
        world.engine.state_query(NFTPixelboardState::TokenInfo(9)),
        NFTPixelboardStateReply::TokenInfo(zeroed)
    );
}

#[test]
fn dispatcher_routes_requests() {
    let mut world = World::initialize();
    world.ledger.mint(USER[0], MAX_PIXEL_PRICE * 25);

    let outcome = world.engine.handle_action(
        USER[0],
        NFTPixelboardAction::Mint {
            rectangle: ((3, 3), (8, 8)).into(),
            token_metadata: metadata(),
            painting: vec![0; 25],
        },
    );
    let (op_id, payment) = match outcome {
        Ok(ActionOutcome::Started { op_id, request }) => (op_id, request),
        other => panic!("expected a started settlement, got {other:?}"),
    };
    let paid = world.pay(&payment);
    let mint_request = world.engine.mint_payment_reply(op_id, paid).unwrap();
    let minted = match &mint_request {
        ExternalAction::MintNft { transaction_id, to, .. } => {
            world.nft.mint(world.board, *transaction_id, *to)
        },
        _ => panic!("expected an ownership mint request"),
    };
    assert_eq!(
        world.engine.mint_ownership_reply(op_id, minted),
        Ok(NFTPixelboardEvent::Minted(0))
    );

    let painted = world.engine.handle_action(
        USER[0],
        NFTPixelboardAction::Paint { token_id: 0, painting: vec![5; 25] },
    );
    match painted {
        Ok(ActionOutcome::Completed(event)) => {
            assert_eq!(event, NFTPixelboardEvent::Painted(0));
        },
        other => panic!("expected a completed repaint, got {other:?}"),
    }
    assert_eq!(world.engine.painting()[33], 5);
}
