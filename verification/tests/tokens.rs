use anchor_lang::prelude::Pubkey;
use anchor_spl::associated_token::get_associated_token_address;
use stream_contract::address::Address;
use stream_contract::auth::StateChangeAuth;
use stream_contract::cancel::cancel_stream_token;
use stream_contract::cancel::cancel_token_checked;
use stream_contract::contexts::CancelStreamToken;
use stream_contract::contexts::CreateStreamToken;
use stream_contract::contexts::PauseStreamToken;
use stream_contract::contexts::ReloadStreamToken;
use stream_contract::contexts::WithdrawFromStreamToken;
use stream_contract::create::create_stream_token;
use stream_contract::error::MyError;
use stream_contract::pause::pause_stream_token;
use stream_contract::pause::pause_token_checked;
use stream_contract::reload::reload_stream_token;
use stream_contract::stream::StreamAccount;
use stream_contract::stream::Transfers;
use stream_contract::withdraw::withdraw_from_stream_token;
use stream_contract::withdraw::withdraw_token_checked;

const NOW: u64 = 1_700_000_000;

fn key(tag: u8) -> Address {
    Address::new([tag; 32])
}

fn sender() -> Address {
    key(1)
}

fn recipient() -> Address {
    key(2)
}

fn mint() -> Address {
    key(3)
}

fn tokens_of(wallet: Address, mint: Address) -> Address {
    let w = Pubkey::new_from_array(wallet.bytes);
    let m = Pubkey::new_from_array(mint.bytes);
    Address::new(get_associated_token_address(&w, &m).to_bytes())
}

fn empty_record() -> StreamAccount {
    StreamAccount {
        stream_id: String::new(),
        stream_title: String::new(),
        recipient: key(0),
        sender: key(0),
        token_address: key(0),
        create_time: 0,
        start_time: 0,
        stop_time: 0,
        remaining_balance: 0,
        deposit: 0,
        withdrawn: 0,
        cliff_amount: 0,
        interval: 0,
        rate_of_stream: 0,
        time_left: 0,
        paused_amount: 0,
        bump: 0,
        cancel_by: StateChangeAuth::OnlySender,
        pause_by: StateChangeAuth::OnlySender,
        resume_by: StateChangeAuth::OnlySender,
        withdraw_by: StateChangeAuth::OnlySender,
        edit_by: StateChangeAuth::OnlySender,
        is_cliff_percent: false,
        is_paused: false,
        is_cancelled: false,
        is_infinite: false,
    }
}

fn try_open(values: Vec<u64>, selectors: [u8; 5], start_now: bool) -> (Result<Transfers, MyError>, CreateStreamToken) {
    let mut ctx = CreateStreamToken {
        stream: empty_record(),
        sender: sender(),
        recipient: recipient(),
        token_address: mint(),
    };
    let res = create_stream_token(
        &mut ctx,
        String::from("t-1"),
        String::from("grant"),
        values,
        false,
        true,
        selectors[0],
        selectors[1],
        selectors[2],
        selectors[3],
        selectors[4],
        start_now,
        253,
        NOW,
    );
    (res, ctx)
}

fn running() -> StreamAccount {
    let (res, ctx) = try_open(vec![1000, 0, 0, 1000, 100, 10000], [2, 2, 2, 2, 2], true);
    assert_eq!(res, Ok(Transfers { to_escrow: 1000, to_recipient: 0, to_sender: 0 }));
    ctx.stream
}

fn unchanged(a: &StreamAccount, b: &StreamAccount) {
    assert_eq!(format!("{:?}", a), format!("{:?}", b));
}

#[test]
fn create_token_reads_the_values_in_order() {
    let (res, ctx) = try_open(vec![1200, 200, NOW + 7, 50, 100, 500, 99], [0, 1, 2, 1, 0], false);
    assert_eq!(res, Ok(Transfers { to_escrow: 1200, to_recipient: 0, to_sender: 0 }));
    let s = ctx.stream;
    assert_eq!(s.stream_id, "t-1");
    assert_eq!(s.stream_title, "grant");
    assert_eq!(s.sender, sender());
    assert_eq!(s.recipient, recipient());
    assert_eq!(s.token_address, mint());
    assert_eq!(s.deposit, 1200);
    assert_eq!(s.remaining_balance, 1200);
    assert_eq!(s.cliff_amount, 200);
    assert_eq!(s.create_time, NOW);
    assert_eq!(s.start_time, NOW + 7);
    assert_eq!(s.stop_time, NOW + 7 + 500);
    assert_eq!(s.interval, 50);
    assert_eq!(s.rate_of_stream, 100);
    assert_eq!(s.bump, 253);
    assert_eq!(s.cancel_by, StateChangeAuth::OnlySender);
    assert_eq!(s.pause_by, StateChangeAuth::OnlyReceiver);
    assert_eq!(s.resume_by, StateChangeAuth::Both);
    assert_eq!(s.withdraw_by, StateChangeAuth::OnlyReceiver);
    assert_eq!(s.edit_by, StateChangeAuth::OnlySender);
    assert!(s.is_infinite);
    assert!(s.is_valid());
}

#[test]
fn create_token_checks_the_selectors_in_its_own_order() {
    let values = vec![1000, 0, 0, 1000, 100, 10000];
    let refused = |selectors: [u8; 5]| {
        let (res, ctx) = try_open(values.clone(), selectors, true);
        unchanged(&ctx.stream, &empty_record());
        res
    };
    assert_eq!(refused([9, 9, 9, 9, 9]), Err(MyError::InvalidCancelBy));
    assert_eq!(refused([0, 9, 9, 9, 9]), Err(MyError::InvalidPauseBy));
    assert_eq!(refused([0, 0, 9, 9, 9]), Err(MyError::InvalidWithdrawBy));
    assert_eq!(refused([0, 0, 9, 0, 9]), Err(MyError::InvalidResumeBy));
    assert_eq!(refused([0, 0, 0, 0, 9]), Err(MyError::InvalidEditBy));
    assert_eq!(refused([3, 3, 3, 3, 0]), Err(MyError::InvalidWithdrawBy));
    assert_eq!(refused([3, 3, 3, 0, 3]), Err(MyError::InvalidEditBy));
}

#[test]
fn create_token_refuses_as_the_native_form_does() {
    let open = |values: Vec<u64>| try_open(values, [2, 2, 2, 2, 2], true).0;
    assert_eq!(open(vec![0, 0, 0, 1000, 100, 10000]), Err(MyError::DepositIsZero));
    assert_eq!(open(vec![1000, 0, 0, 0, 100, 10000]), Err(MyError::IntervalIsZero));
    assert_eq!(open(vec![1000, 950, 0, 1000, 100, 10000]), Err(MyError::DepositSmallerThanTime));
    assert_eq!(open(vec![1000, 0, 0, 1000, 100, 10001]), Err(MyError::IncorrectDuration));
    assert_eq!(
        try_open(vec![1000, 0, NOW - 1, 1000, 100, 10000], [2, 2, 2, 2, 2], false).0,
        Err(MyError::PastStartTime)
    );
}

fn withdraw_ctx(stream: &StreamAccount) -> WithdrawFromStreamToken {
    WithdrawFromStreamToken {
        stream: stream.clone(),
        authority: recipient(),
        sender: sender(),
        recipient: recipient(),
        recipient_tokens: tokens_of(recipient(), mint()),
        token_address: mint(),
    }
}

#[test]
fn withdraw_token_pays_into_the_associated_account() {
    let s = running();
    let mut ctx = withdraw_ctx(&s);
    let res = withdraw_from_stream_token(&mut ctx, String::from("t-1"), NOW + 4000);
    assert_eq!(res, Ok(Transfers { to_escrow: 0, to_recipient: 400, to_sender: 0 }));
    assert_eq!(ctx.stream.withdrawn, 400);
    assert_eq!(ctx.stream.remaining_balance, 600);
    assert_eq!(ctx.recipient_tokens, tokens_of(recipient(), mint()));
}

#[test]
fn the_associated_account_is_neither_the_wallet_nor_the_mint() {
    let derived = tokens_of(recipient(), mint());
    assert_ne!(derived, recipient());
    assert_ne!(derived, mint());
    assert_ne!(derived, tokens_of(sender(), mint()));
    assert_ne!(derived, tokens_of(recipient(), key(4)));
    assert_ne!(derived, tokens_of(mint(), recipient()));
}

#[test]
fn withdraw_token_refuses_any_other_token_account() {
    let s = running();
    for wrong in [recipient(), mint(), tokens_of(sender(), mint()), tokens_of(recipient(), key(4)), key(0)] {
        let mut ctx = WithdrawFromStreamToken { recipient_tokens: wrong, ..withdraw_ctx(&s) };
        let res = withdraw_from_stream_token(&mut ctx, String::from("t-1"), NOW + 4000);
        assert_eq!(res, Err(MyError::AssociatedTokenAccountIncorrect));
        unchanged(&ctx.stream, &s);
    }
}

#[test]
fn withdraw_token_checks_in_order() {
    let s = running();
    let all_wrong = WithdrawFromStreamToken {
        stream: s.clone(),
        authority: key(9),
        sender: key(9),
        recipient: key(9),
        recipient_tokens: key(9),
        token_address: key(9),
    };
    let at = NOW - 5;
    let run = |mut ctx: WithdrawFromStreamToken, id: &str| {
        let expected = tokens_of(recipient(), mint());
        let res = withdraw_token_checked(&mut ctx, String::from(id), at, &expected);
        unchanged(&ctx.stream, &s);
        res
    };
    assert_eq!(run(all_wrong.clone(), "x"), Err(MyError::NotAuthorized));
    let c = WithdrawFromStreamToken { authority: sender(), ..all_wrong };
    assert_eq!(run(c.clone(), "x"), Err(MyError::IncorrectStreamId));
    assert_eq!(run(c.clone(), "t-1"), Err(MyError::IncorrectRecipient));
    let c = WithdrawFromStreamToken { recipient: recipient(), ..c };
    assert_eq!(run(c.clone(), "t-1"), Err(MyError::IncorrectTokenAddress));
    let c = WithdrawFromStreamToken { token_address: mint(), ..c };
    assert_eq!(run(c.clone(), "t-1"), Err(MyError::IncorrectSender));
    let c = WithdrawFromStreamToken { sender: sender(), ..c };
    assert_eq!(run(c.clone(), "t-1"), Err(MyError::AssociatedTokenAccountIncorrect));
    let c = WithdrawFromStreamToken { recipient_tokens: tokens_of(recipient(), mint()), ..c };
    assert_eq!(run(c, "t-1"), Err(MyError::StreamNotStarted));
}

#[test]
fn withdraw_token_checked_goes_by_the_account_it_is_given() {
    let s = running();
    let mut ctx = WithdrawFromStreamToken { recipient_tokens: key(77), ..withdraw_ctx(&s) };
    let res = withdraw_token_checked(&mut ctx, String::from("t-1"), NOW + 1000, &key(77));
    assert_eq!(res, Ok(Transfers { to_escrow: 0, to_recipient: 100, to_sender: 0 }));
    let mut ctx = withdraw_ctx(&s);
    let res = withdraw_token_checked(&mut ctx, String::from("t-1"), NOW + 1000, &key(77));
    assert_eq!(res, Err(MyError::AssociatedTokenAccountIncorrect));
}

fn pause_ctx(stream: &StreamAccount) -> PauseStreamToken {
    PauseStreamToken {
        stream: stream.clone(),
        authority: sender(),
        sender: sender(),
        recipient: recipient(),
        recipient_tokens: tokens_of(recipient(), mint()),
        token_address: mint(),
    }
}

#[test]
fn pause_token_releases_what_has_accrued() {
    let s = running();
    let mut ctx = pause_ctx(&s);
    let res = pause_stream_token(&mut ctx, String::from("t-1"), NOW + 1500);
    assert_eq!(res, Ok(Transfers { to_escrow: 0, to_recipient: 100, to_sender: 0 }));
    assert!(ctx.stream.is_paused);
    assert_eq!(ctx.stream.time_left, 8500);
    assert_eq!(ctx.stream.paused_amount, 100);
}

#[test]
fn pause_token_refuses_any_other_token_account() {
    let s = running();
    for wrong in [recipient(), mint(), tokens_of(sender(), mint()), key(0)] {
        let mut ctx = PauseStreamToken { recipient_tokens: wrong, ..pause_ctx(&s) };
        let res = pause_stream_token(&mut ctx, String::from("t-1"), NOW + 1500);
        assert_eq!(res, Err(MyError::AssociatedTokenAccountIncorrect));
        unchanged(&ctx.stream, &s);
    }
}

#[test]
fn pause_token_checks_in_order() {
    let s = running();
    let expected = tokens_of(recipient(), mint());
    let all_wrong = PauseStreamToken {
        stream: s.clone(),
        authority: key(9),
        sender: key(9),
        recipient: key(9),
        recipient_tokens: key(9),
        token_address: key(9),
    };
    let run = |mut ctx: PauseStreamToken, id: &str, now: u64| {
        pause_token_checked(&mut ctx, String::from(id), now, &expected)
    };
    let late = NOW + 10000;
    assert_eq!(run(all_wrong.clone(), "x", late), Err(MyError::NotAuthorized));
    let c = PauseStreamToken { authority: recipient(), ..all_wrong };
    assert_eq!(run(c.clone(), "x", late), Err(MyError::IncorrectStreamId));
    assert_eq!(run(c.clone(), "t-1", late), Err(MyError::IncorrectRecipient));
    let c = PauseStreamToken { recipient: recipient(), ..c };
    assert_eq!(run(c.clone(), "t-1", late), Err(MyError::IncorrectTokenAddress));
    let c = PauseStreamToken { token_address: mint(), ..c };
    assert_eq!(run(c.clone(), "t-1", late), Err(MyError::IncorrectSender));
    let c = PauseStreamToken { sender: sender(), ..c };
    assert_eq!(run(c.clone(), "t-1", late), Err(MyError::AssociatedTokenAccountIncorrect));
    let c = PauseStreamToken { recipient_tokens: expected, ..c };
    assert_eq!(run(c.clone(), "t-1", late), Err(MyError::StreamAlreadyEnded));
    assert_eq!(run(c.clone(), "t-1", NOW - 1), Err(MyError::StreamNotStarted));
    let mut paused = c.clone();
    assert!(pause_token_checked(&mut paused, String::from("t-1"), NOW + 10, &expected).is_ok());
    let again = PauseStreamToken { recipient_tokens: key(9), ..paused };
    assert_eq!(run(again, "t-1", NOW + 20), Err(MyError::StreamAlreadyPaused));
}

#[test]
fn pause_token_calls_a_cancelled_stream_ended() {
    let s = running();
    let mut ctx = cancel_ctx(&s);
    assert!(cancel_stream_token(&mut ctx, String::from("t-1"), NOW + 10).is_ok());
    let mut ctx = PauseStreamToken { recipient_tokens: key(9), ..pause_ctx(&ctx.stream) };
    let res = pause_stream_token(&mut ctx, String::from("t-1"), NOW + 20);
    assert_eq!(res, Err(MyError::StreamAlreadyEnded));
}

fn cancel_ctx(stream: &StreamAccount) -> CancelStreamToken {
    CancelStreamToken {
        stream: stream.clone(),
        authority: sender(),
        recipient: recipient(),
        recipient_tokens: tokens_of(recipient(), mint()),
        sender_tokens_owner: sender(),
        token_address: mint(),
    }
}

#[test]
fn cancel_token_splits_the_escrow() {
    let s = running();
    let mut ctx = cancel_ctx(&s);
    let res = cancel_stream_token(&mut ctx, String::from("t-1"), NOW + 3000);
    assert_eq!(res, Ok(Transfers { to_escrow: 0, to_recipient: 300, to_sender: 700 }));
    assert!(ctx.stream.is_cancelled);
    assert_eq!(ctx.stream.remaining_balance, 0);
    assert_eq!(ctx.stream.withdrawn, 300);
}

#[test]
fn cancel_token_checks_in_order() {
    let s = running();
    let expected = tokens_of(recipient(), mint());
    let all_wrong = CancelStreamToken {
        stream: s.clone(),
        authority: key(9),
        recipient: key(9),
        recipient_tokens: key(9),
        sender_tokens_owner: key(9),
        token_address: key(9),
    };
    let run = |mut ctx: CancelStreamToken, id: &str| {
        let res = cancel_token_checked(&mut ctx, String::from(id), NOW, &expected);
        (res, ctx.stream)
    };
    assert_eq!(run(all_wrong.clone(), "x").0, Err(MyError::NotAuthorized));
    let c = CancelStreamToken { authority: recipient(), ..all_wrong };
    assert_eq!(run(c.clone(), "x").0, Err(MyError::IncorrectStreamId));
    let (res, after) = run(c.clone(), "t-1");
    assert_eq!(res, Err(MyError::IncorrectRecipient));
    unchanged(&after, &s);
    let c = CancelStreamToken { recipient: recipient(), ..c };
    let (res, after) = run(c.clone(), "t-1");
    assert_eq!(res, Err(MyError::IncorrectSender));
    unchanged(&after, &s);
    let c = CancelStreamToken { sender_tokens_owner: sender(), ..c };
    assert_eq!(run(c.clone(), "t-1").0, Err(MyError::IncorrectTokenAddress));
    let c = CancelStreamToken { token_address: mint(), ..c };
    let (res, after) = run(c.clone(), "t-1");
    assert_eq!(res, Err(MyError::AssociatedTokenAccountIncorrect));
    unchanged(&after, &s);
    let c = CancelStreamToken { recipient_tokens: expected, ..c };
    let (res, done) = run(c.clone(), "t-1");
    assert_eq!(res, Ok(Transfers { to_escrow: 0, to_recipient: 0, to_sender: 1000 }));
    let again = CancelStreamToken { stream: done, recipient_tokens: key(9), ..c };
    assert_eq!(run(again, "t-1").0, Err(MyError::StreamAlreadyCancelled));
}

#[test]
fn cancel_token_pays_the_recorded_parties_only() {
    let s = running();
    let mut ctx = CancelStreamToken {
        recipient: key(5),
        recipient_tokens: tokens_of(key(5), mint()),
        ..cancel_ctx(&s)
    };
    assert_eq!(
        cancel_stream_token(&mut ctx, String::from("t-1"), NOW + 3000),
        Err(MyError::IncorrectRecipient)
    );
    unchanged(&ctx.stream, &s);
    for owner in [recipient(), key(5), key(0)] {
        let mut ctx = CancelStreamToken { sender_tokens_owner: owner, ..cancel_ctx(&s) };
        assert_eq!(
            cancel_stream_token(&mut ctx, String::from("t-1"), NOW + 3000),
            Err(MyError::IncorrectSender)
        );
        unchanged(&ctx.stream, &s);
    }
    for wrong in [tokens_of(key(5), mint()), tokens_of(sender(), mint()), recipient()] {
        let mut ctx = CancelStreamToken { recipient_tokens: wrong, ..cancel_ctx(&s) };
        assert_eq!(
            cancel_stream_token(&mut ctx, String::from("t-1"), NOW + 3000),
            Err(MyError::AssociatedTokenAccountIncorrect)
        );
        unchanged(&ctx.stream, &s);
    }
}

#[test]
fn a_cancelled_stream_of_a_token_refuses_whoever_calls() {
    let s = running();
    let mut ctx = cancel_ctx(&s);
    assert!(cancel_stream_token(&mut ctx, String::from("t-1"), NOW + 10).is_ok());
    let done = ctx.stream;
    for caller in [sender(), recipient(), key(9)] {
        for name in ["t-1", "other"] {
            let mut w = WithdrawFromStreamToken {
                authority: caller,
                recipient: key(9),
                recipient_tokens: key(9),
                ..withdraw_ctx(&done)
            };
            let res = withdraw_from_stream_token(&mut w, String::from(name), NOW + 5000);
            assert_eq!(res, Err(MyError::StreamAlreadyCancelled));
            unchanged(&w.stream, &done);
            let mut p = PauseStreamToken {
                authority: caller,
                recipient: key(9),
                token_address: key(9),
                ..pause_ctx(&done)
            };
            let res = pause_stream_token(&mut p, String::from(name), NOW + 5000);
            assert_eq!(res, Err(MyError::StreamAlreadyEnded));
            unchanged(&p.stream, &done);
            for amount in [0, 300] {
                let mut r = ReloadStreamToken { stream: done.clone() };
                let res = reload_stream_token(&mut r, String::from(name), amount);
                assert_eq!(res, Err(MyError::StreamAlreadyCancelled));
                unchanged(&r.stream, &done);
            }
        }
    }
}

#[test]
fn reload_token_adds_to_the_escrow() {
    let s = running();
    let mut ctx = ReloadStreamToken { stream: s };
    let res = reload_stream_token(&mut ctx, String::from("t-1"), 300);
    assert_eq!(res, Ok(Transfers { to_escrow: 300, to_recipient: 0, to_sender: 0 }));
    assert_eq!(ctx.stream.deposit, 1300);
    assert_eq!(ctx.stream.remaining_balance, 1300);
    assert_eq!(ctx.stream.stop_time, NOW + 13000);
    let res = reload_stream_token(&mut ctx, String::from("t-2"), 300);
    assert_eq!(res, Err(MyError::IncorrectStreamId));
}
