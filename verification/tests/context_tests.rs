use pathtracer::context::{
    blur_strength, reseed_of, uniform_of, RngSet, TraceContext, MAX_BLUR_BITS, RESEED_SPAN,
    UNIFORM_SPAN,
};
use pathtracer::scalar::Scalar;
use quasirandom::Qrng;
use rand::{thread_rng, RngCore};

type Context = TraceContext<Qrng<f32>, Qrng<(f32, f32)>, Qrng<(f32, f32, f32)>>;

fn s(x: f32) -> Scalar {
    Scalar::from_bits(x.to_bits())
}

/// The 64 random bits of which the reseed `x` is made.
fn word(x: f64) -> u64 {
    ((x * RESEED_SPAN as f64) as u64) << 11
}

fn context(max_depth: i32, reseed: f64) -> Context {
    TraceContext::new(max_depth, word(reseed))
}

fn plain(max_depth: i32) -> TraceContext<u32, u32, u32> {
    TraceContext::new(max_depth, 99 << 11)
}

fn seed(index: usize, reseed: u64) -> f64 {
    (index as f64 + reseed as f64 * (1.0 / RESEED_SPAN as f64)).exp().fract()
}

fn draw1(ctx: &mut Context) -> f32 {
    ctx.rng1(|index, reseed| Qrng::<f32>::new(seed(index, reseed))).gen()
}

fn draw2(ctx: &mut Context) -> (f32, f32) {
    ctx.rng2(|index, reseed| Qrng::<(f32, f32)>::new(seed(index, reseed))).gen()
}

fn draw3(ctx: &mut Context) -> (f32, f32, f32) {
    ctx.rng3(|index, reseed| Qrng::<(f32, f32, f32)>::new(seed(index, reseed))).gen()
}

#[test]
fn new_context_is_at_depth_zero_with_empty_pools() {
    let ctx = context(5, 0.25);
    assert_eq!(ctx.current_depth(), 0);
    assert_eq!(ctx.max_depth(), 5);
    assert_eq!(ctx.reseed(), RESEED_SPAN / 4);
    assert_eq!(ctx.cursors(), (0, 0, 0));
    assert_eq!(ctx.pool_sizes(), (0, 0, 0));
}

#[test]
fn a_context_on_random_bits_has_a_reseed_below_one() {
    let mut seen = Vec::new();
    for _ in 0..8 {
        let ctx: Context = TraceContext::new(3, thread_rng().next_u64());
        assert_eq!(ctx.current_depth(), 0);
        assert_eq!(ctx.max_depth(), 3);
        assert_eq!(ctx.cursors(), (0, 0, 0));
        assert_eq!(ctx.pool_sizes(), (0, 0, 0));
        assert!(ctx.reseed() < RESEED_SPAN);
        seen.push(ctx.reseed());
    }
    seen.sort();
    seen.dedup();
    assert!(seen.len() > 1);
}

#[test]
fn the_reseed_is_the_upper_53_bits_of_the_word() {
    assert_eq!(RESEED_SPAN, 1u64 << 53);
    assert_eq!(reseed_of(0), 0);
    assert_eq!(reseed_of(2047), 0);
    assert_eq!(reseed_of(2048), 1);
    assert_eq!(reseed_of(u64::MAX), RESEED_SPAN - 1);
    assert_eq!(reseed_of(1u64 << 63), RESEED_SPAN / 2);
    assert_eq!(reseed_of(0x1234_5678_9abc_def0), 0x1234_5678_9abc_def0u64 >> 11);
    for x in [0.0f64, 0.25, 0.3125, 0.5, 0.999] {
        assert_eq!(reseed_of(word(x)) as f64 * (1.0 / RESEED_SPAN as f64), x);
    }
}

#[test]
fn a_random_number_is_the_upper_24_bits_of_the_word() {
    assert_eq!(uniform_of(0), 0);
    assert_eq!(uniform_of(255), 0);
    assert_eq!(uniform_of(256), 1);
    assert_eq!(uniform_of(u32::MAX), UNIFORM_SPAN - 1);
    assert_eq!(uniform_of(1u32 << 31), UNIFORM_SPAN / 2);
    assert_eq!(uniform_of(0x1234_5678), 0x12_3456);
    assert_eq!(uniform_of(3 << 30) as f32 * (1.0 / UNIFORM_SPAN as f32), 0.75);
}

#[test]
fn a_random_number_of_random_bits_is_below_one() {
    assert_eq!(UNIFORM_SPAN, 1u32 << 24);
    let mut seen = Vec::new();
    for _ in 0..32 {
        let count = uniform_of(thread_rng().next_u32());
        assert!(count < UNIFORM_SPAN);
        let number = count as f32 * (1.0 / UNIFORM_SPAN as f32);
        assert!((0.0..1.0).contains(&number));
        seen.push(count);
    }
    seen.sort();
    seen.dedup();
    assert!(seen.len() > 1);
}

#[test]
fn push_fails_after_max_depth_pushes_and_pops_return_to_zero() {
    for max_depth in 0..6 {
        let mut ctx = context(max_depth, 0.0);
        for level in 0..max_depth {
            assert!(ctx.try_push());
            assert_eq!(ctx.current_depth(), level + 1);
        }
        assert!(!ctx.try_push());
        assert!(!ctx.try_push());
        assert_eq!(ctx.current_depth(), max_depth);
        for level in (0..max_depth).rev() {
            ctx.pop();
            assert_eq!(ctx.current_depth(), level);
        }
        assert_eq!(ctx.current_depth(), 0);
    }
}

#[test]
fn push_after_pop_is_admitted_again() {
    let mut ctx = context(1, 0.0);
    assert!(ctx.try_push());
    assert!(!ctx.try_push());
    ctx.pop();
    assert!(ctx.try_push());
    assert_eq!(ctx.current_depth(), 1);
}

#[test]
fn zero_depth_context_admits_nothing() {
    let mut ctx = context(0, 0.0);
    assert!(!ctx.try_push());
    assert_eq!(ctx.current_depth(), 0);
}

#[test]
fn depth_changes_leave_the_draws_alone() {
    let mut ctx = context(3, 0.5);
    draw1(&mut ctx);
    draw3(&mut ctx);
    assert!(ctx.try_push());
    assert_eq!(ctx.cursors(), (1, 0, 1));
    assert_eq!(ctx.pool_sizes(), (1, 0, 1));
    ctx.pop();
    assert_eq!(ctx.cursors(), (1, 0, 1));
    assert_eq!(ctx.pool_sizes(), (1, 0, 1));
    assert_eq!(ctx.reseed(), RESEED_SPAN / 2);
}

#[test]
fn each_draw_of_a_sample_has_a_generator_of_its_own() {
    let mut ctx = context(3, 0.375);
    let reseed = ctx.reseed();
    let first = draw1(&mut ctx);
    let second = draw1(&mut ctx);
    let third = draw1(&mut ctx);
    assert_eq!(ctx.cursors(), (3, 0, 0));
    assert_eq!(ctx.pool_sizes(), (3, 0, 0));
    assert_eq!(first, Qrng::<f32>::new(seed(1, reseed)).gen());
    assert_eq!(second, Qrng::<f32>::new(seed(2, reseed)).gen());
    assert_eq!(third, Qrng::<f32>::new(seed(3, reseed)).gen());
}

#[test]
fn the_three_pools_are_counted_apart() {
    let mut ctx = context(3, 0.125);
    let reseed = ctx.reseed();
    let pair = draw2(&mut ctx);
    let triple = draw3(&mut ctx);
    let one = draw1(&mut ctx);
    let triple2 = draw3(&mut ctx);
    assert_eq!(ctx.cursors(), (1, 1, 2));
    assert_eq!(ctx.pool_sizes(), (1, 1, 2));
    assert_eq!(pair, Qrng::<(f32, f32)>::new(seed(1, reseed)).gen());
    assert_eq!(triple, Qrng::<(f32, f32, f32)>::new(seed(1, reseed)).gen());
    assert_eq!(one, Qrng::<f32>::new(seed(1, reseed)).gen());
    assert_eq!(triple2, Qrng::<(f32, f32, f32)>::new(seed(2, reseed)).gen());
}

#[test]
fn next_sample_rewinds_the_cursors_and_keeps_the_generators() {
    let mut ctx = context(3, 0.75);
    let reseed = ctx.reseed();
    let a0 = draw1(&mut ctx);
    let b0 = draw1(&mut ctx);
    let t0 = draw3(&mut ctx);
    ctx.next_sample();
    assert_eq!(ctx.cursors(), (0, 0, 0));
    assert_eq!(ctx.pool_sizes(), (2, 0, 1));
    assert_eq!(ctx.reseed(), reseed);
    let a1 = draw1(&mut ctx);
    let b1 = draw1(&mut ctx);
    let t1 = draw3(&mut ctx);
    assert_eq!(ctx.pool_sizes(), (2, 0, 1));

    let mut first = Qrng::<f32>::new(seed(1, reseed));
    let mut second = Qrng::<f32>::new(seed(2, reseed));
    let mut triple = Qrng::<(f32, f32, f32)>::new(seed(1, reseed));
    assert_eq!(a0, first.gen());
    assert_eq!(a1, first.gen());
    assert_eq!(b0, second.gen());
    assert_eq!(b1, second.gen());
    assert_eq!(t0, triple.gen());
    assert_eq!(t1, triple.gen());
    assert_ne!(a0, a1);
}

#[test]
fn a_longer_sample_grows_the_pool_behind_the_kept_generators() {
    let mut ctx = context(3, 0.5);
    let reseed = ctx.reseed();
    draw1(&mut ctx);
    ctx.next_sample();
    draw1(&mut ctx);
    let fresh = draw1(&mut ctx);
    assert_eq!(ctx.cursors(), (2, 0, 0));
    assert_eq!(ctx.pool_sizes(), (2, 0, 0));
    assert_eq!(fresh, Qrng::<f32>::new(seed(2, reseed)).gen());
}

#[test]
fn next_pixel_drops_the_generators_and_takes_the_new_reseed() {
    let mut ctx = context(3, 0.25);
    let first_reseed = ctx.reseed();
    let second_reseed = reseed_of(word(0.625));
    draw1(&mut ctx);
    draw2(&mut ctx);
    let before = draw3(&mut ctx);
    ctx.next_pixel(word(0.625));
    assert_eq!(ctx.cursors(), (0, 0, 0));
    assert_eq!(ctx.pool_sizes(), (0, 0, 0));
    assert_eq!(ctx.reseed(), second_reseed);
    assert_eq!(ctx.current_depth(), 0);
    assert_eq!(ctx.max_depth(), 3);
    let after = draw3(&mut ctx);
    assert_eq!(ctx.cursors(), (0, 0, 1));
    assert_eq!(ctx.pool_sizes(), (0, 0, 1));
    assert_eq!(after, Qrng::<(f32, f32, f32)>::new(seed(1, second_reseed)).gen());
    assert_eq!(before, Qrng::<(f32, f32, f32)>::new(seed(1, first_reseed)).gen());
    assert_ne!(before, after);
}

#[test]
fn next_pixel_on_random_bits_takes_a_new_reseed() {
    let mut ctx = context(3, 0.25);
    let mut seen = vec![ctx.reseed()];
    for _ in 0..8 {
        draw1(&mut ctx);
        draw3(&mut ctx);
        let bits = thread_rng().next_u64();
        ctx.next_pixel(bits);
        assert_eq!(ctx.reseed(), reseed_of(bits));
        assert_eq!(ctx.cursors(), (0, 0, 0));
        assert_eq!(ctx.pool_sizes(), (0, 0, 0));
        assert_eq!(ctx.current_depth(), 0);
        assert_eq!(ctx.max_depth(), 3);
        assert!(ctx.reseed() < RESEED_SPAN);
        let reseed = ctx.reseed();
        assert_eq!(draw3(&mut ctx), Qrng::<(f32, f32, f32)>::new(seed(1, reseed)).gen());
        seen.push(reseed);
    }
    seen.sort();
    seen.dedup();
    assert!(seen.len() > 1);
}

#[test]
fn the_factory_is_called_only_for_a_new_generator() {
    let mut set: RngSet<u32> = RngSet::new();
    let mut ctx = plain(1);
    *set.draw(|index| index as u32 * 10) += 1;
    *set.draw(|index| index as u32 * 10) += 1;
    assert_eq!(set.len(), 2);
    assert_eq!(set.position(), 2);
    set.rewind();
    assert_eq!(set.position(), 0);
    assert_eq!(*set.draw(|_| 0), 11);
    assert_eq!(*set.draw(|_| 0), 21);
    set.clear();
    assert_eq!(set.len(), 0);
    assert_eq!(*set.draw(|index| index as u32), 1);

    assert_eq!(*ctx.rng1(|index, reseed| index as u32 + reseed as u32), 100);
    assert_eq!(*ctx.rng1(|index, reseed| index as u32 + reseed as u32), 101);
    assert_eq!(*ctx.rng2(|index, reseed| index as u32 + reseed as u32), 100);
    ctx.next_sample();
    assert_eq!(*ctx.rng1(|_, _| 0), 100);
}

#[test]
fn blur_strength_is_held_between_zero_and_nearly_one() {
    assert_eq!(MAX_BLUR_BITS, 0.999f32.to_bits());
    assert_eq!(blur_strength(s(1.0)).to_bits(), 0.999f32.to_bits());
    assert_eq!(blur_strength(s(0.999)).to_bits(), 0.999f32.to_bits());
    assert_eq!(blur_strength(s(0.06)).to_bits(), 0.06f32.to_bits());
    assert_eq!(blur_strength(s(0.0)).to_bits(), 0.0f32.to_bits());
    assert_eq!(blur_strength(s(-3.0)).to_bits(), 0.0f32.to_bits());
    assert_eq!(blur_strength(s(f32::INFINITY)).to_bits(), 0.999f32.to_bits());
    for x in [0.0f32, 0.2, 0.05, 1.0, 7.0, -1.0] {
        assert_eq!(blur_strength(s(x)).to_bits(), x.clamp(0.0, 0.999).to_bits());
    }
}
