use trap_dispatch::cause::{classify, Cause, Exception, Interrupt};
use trap_dispatch::context::Context;
use trap_dispatch::handler::{
    breakpoint, fault, handle_interrupt, init, is_in_range, loadfault, select, supervisor_timer,
    Handler, InstallError, Outcome,
};
use trap_dispatch::timer::TickCounter;

const INTERRUPT: usize = 1 << (usize::BITS - 1);

fn sample_context(sepc: usize) -> Context {
    let mut x = [0usize; 32];
    let mut i = 0;
    while i < 32 {
        x[i] = 0x1000 + i;
        i += 1;
    }
    Context { x, sstatus: 0x120, sepc }
}

#[test]
fn breakpoint_trap_skips_the_instruction() {
    let before = sample_context(0x8020_0000);
    let mut context = before;
    let mut ticks = TickCounter::new();
    let outcome = handle_interrupt(&mut context, &mut ticks, 3, 0);
    assert_eq!(outcome, Outcome::Breakpoint { sepc: 0x8020_0000 });
    assert!(!outcome.is_fatal());
    assert_eq!(context.sepc, 0x8020_0002);
    assert_eq!(context.x, before.x);
    assert_eq!(context.sstatus, before.sstatus);
    assert_eq!(ticks.get(), 0);
}

#[test]
fn breakpoint_handler_reports_the_old_address() {
    let mut context = sample_context(0x100);
    let outcome = breakpoint(&mut context);
    assert_eq!(outcome, Outcome::Breakpoint { sepc: 0x100 });
    assert_eq!(context, Context { sepc: 0x102, ..sample_context(0x100) });
}

#[test]
fn breakpoint_at_the_last_address_that_has_room() {
    let mut context = sample_context(usize::MAX - 2);
    let outcome = breakpoint(&mut context);
    assert_eq!(outcome, Outcome::Breakpoint { sepc: usize::MAX - 2 });
    assert_eq!(context.sepc, usize::MAX);
}

#[test]
fn two_breakpoints_skip_twice() {
    let mut context = sample_context(0x4000);
    let mut ticks = TickCounter::new();
    handle_interrupt(&mut context, &mut ticks, 3, 0);
    handle_interrupt(&mut context, &mut ticks, 3, 0);
    assert_eq!(context.sepc, 0x4004);
}

#[test]
fn load_fault_trap_halts_with_the_fault_value() {
    let before = sample_context(0x8020_1234);
    let mut context = before;
    let mut ticks = TickCounter::new();
    let outcome = handle_interrupt(&mut context, &mut ticks, 5, 0xDEAD_BEEF);
    assert_eq!(outcome, Outcome::LoadFault { context: before, stval: 0xDEAD_BEEF });
    assert!(outcome.is_fatal());
    assert_eq!(context, before);
    assert_eq!(ticks.get(), 0);
}

#[test]
fn load_fault_handler_keeps_the_context() {
    let context = sample_context(0x10);
    let outcome = loadfault(&context, 0xDEAD_BEEF);
    assert_eq!(outcome, Outcome::LoadFault { context, stval: 0xDEAD_BEEF });
    assert!(outcome.is_fatal());
}

#[test]
fn ten_timer_interrupts_count_ten() {
    let before = sample_context(0x8020_0040);
    let mut context = before;
    let mut ticks = TickCounter::new();
    for _ in 0..10 {
        let outcome = handle_interrupt(&mut context, &mut ticks, INTERRUPT | 5, 0);
        assert_eq!(outcome, Outcome::Tick);
        assert!(!outcome.is_fatal());
    }
    assert_eq!(ticks.get(), 10);
    assert_eq!(context, before);
}

#[test]
fn timer_handler_counts_one() {
    let mut ticks = TickCounter::new();
    assert_eq!(ticks.get(), 0);
    assert_eq!(supervisor_timer(&mut ticks), Outcome::Tick);
    assert_eq!(ticks.get(), 1);
    assert_eq!(supervisor_timer(&mut ticks), Outcome::Tick);
    assert_eq!(ticks.get(), 2);
}

#[test]
fn illegal_instruction_goes_to_the_fallback() {
    let before = sample_context(0x8020_0008);
    let mut context = before;
    let mut ticks = TickCounter::new();
    let outcome = handle_interrupt(&mut context, &mut ticks, 2, 0x1234);
    assert_eq!(
        outcome,
        Outcome::Unresolved {
            cause: Cause::Exception(Exception::IllegalInstruction),
            context: before,
            stval: 0x1234,
        }
    );
    assert!(outcome.is_fatal());
    assert_eq!(context, before);
    assert_eq!(ticks.get(), 0);
}

#[test]
fn fallback_handler_reports_cause_context_and_value() {
    let context = sample_context(0x20);
    let cause = Cause::Interrupt(Interrupt::SupervisorExternal);
    let outcome = fault(&context, cause, 7);
    assert_eq!(outcome, Outcome::Unresolved { cause, context, stval: 7 });
    assert!(outcome.is_fatal());
}

#[test]
fn other_interrupts_go_to_the_fallback() {
    for (code, source) in [
        (1usize, Interrupt::SupervisorSoft),
        (9, Interrupt::SupervisorExternal),
        (0, Interrupt::Unknown),
        (7, Interrupt::Unknown),
    ] {
        let before = sample_context(0x30);
        let mut context = before;
        let mut ticks = TickCounter::new();
        let outcome = handle_interrupt(&mut context, &mut ticks, INTERRUPT | code, 0);
        assert_eq!(
            outcome,
            Outcome::Unresolved { cause: Cause::Interrupt(source), context: before, stval: 0 }
        );
        assert_eq!(ticks.get(), 0);
    }
}

#[test]
fn unknown_exception_code_goes_to_the_fallback() {
    let before = sample_context(0x40);
    let mut context = before;
    let mut ticks = TickCounter::new();
    let outcome = handle_interrupt(&mut context, &mut ticks, 0x7fff, 1);
    assert_eq!(
        outcome,
        Outcome::Unresolved {
            cause: Cause::Exception(Exception::Unknown),
            context: before,
            stval: 1,
        }
    );
}

#[test]
fn the_same_code_means_different_things_for_interrupts_and_exceptions() {
    // Code 5 is a load fault as an exception and the timer as an interrupt;
    // code 3 is a breakpoint only as an exception.
    assert_eq!(classify(5), Cause::Exception(Exception::LoadFault));
    assert_eq!(classify(INTERRUPT | 5), Cause::Interrupt(Interrupt::SupervisorTimer));
    assert_eq!(classify(3), Cause::Exception(Exception::Breakpoint));
    assert_eq!(classify(INTERRUPT | 3), Cause::Interrupt(Interrupt::Unknown));
}

#[test]
fn select_names_one_handler_for_each_cause() {
    assert_eq!(select(Cause::Exception(Exception::Breakpoint)), Handler::Breakpoint);
    assert_eq!(select(Cause::Exception(Exception::LoadFault)), Handler::LoadFault);
    assert_eq!(select(Cause::Interrupt(Interrupt::SupervisorTimer)), Handler::SupervisorTimer);
    for exception in [
        Exception::InstructionMisaligned,
        Exception::InstructionFault,
        Exception::IllegalInstruction,
        Exception::LoadMisaligned,
        Exception::StoreMisaligned,
        Exception::StoreFault,
        Exception::UserEnvCall,
        Exception::SupervisorEnvCall,
        Exception::InstructionPageFault,
        Exception::LoadPageFault,
        Exception::StorePageFault,
        Exception::Unknown,
    ] {
        assert_eq!(select(Cause::Exception(exception)), Handler::Fault);
    }
    for interrupt in
        [Interrupt::SupervisorSoft, Interrupt::SupervisorExternal, Interrupt::Unknown]
    {
        assert_eq!(select(Cause::Interrupt(interrupt)), Handler::Fault);
    }
}

#[test]
fn traps_in_turn_touch_only_their_own_state() {
    let mut context = sample_context(0x1000);
    let mut ticks = TickCounter::new();
    handle_interrupt(&mut context, &mut ticks, INTERRUPT | 5, 0);
    handle_interrupt(&mut context, &mut ticks, 3, 0);
    handle_interrupt(&mut context, &mut ticks, INTERRUPT | 5, 0);
    assert_eq!(ticks.get(), 2);
    assert_eq!(context, Context { sepc: 0x1002, ..sample_context(0x1000) });
}

#[test]
fn init_takes_an_aligned_entry_point() {
    assert_eq!(init(0x8020_0000), Ok(0x8020_0000));
    assert_eq!(init(0), Ok(0));
    assert_eq!(init(usize::MAX - 3), Ok(usize::MAX - 3));
}

#[test]
fn init_refuses_a_misaligned_entry_point() {
    assert_eq!(init(0x8020_0001), Err(InstallError::MisalignedEntry));
    assert_eq!(init(0x8020_0002), Err(InstallError::MisalignedEntry));
    assert_eq!(init(0x8020_0003), Err(InstallError::MisalignedEntry));
    assert_eq!(init(usize::MAX), Err(InstallError::MisalignedEntry));
}

#[test]
fn a_breakpoint_needs_room_for_the_skip() {
    let ticks = TickCounter::new();
    assert!(is_in_range(&sample_context(usize::MAX - 2), &ticks, 3));
    assert!(!is_in_range(&sample_context(usize::MAX - 1), &ticks, 3));
    assert!(!is_in_range(&sample_context(usize::MAX), &ticks, 3));
}

#[test]
fn other_traps_fit_whatever_the_resume_address() {
    let ticks = TickCounter::new();
    let context = sample_context(usize::MAX);
    assert!(is_in_range(&context, &ticks, 5));
    assert!(is_in_range(&context, &ticks, 2));
    assert!(is_in_range(&context, &ticks, INTERRUPT | 5));
    assert!(is_in_range(&context, &ticks, INTERRUPT | 3));
}

#[test]
fn set_sepc_changes_the_resume_address_only() {
    let mut context = sample_context(0x10);
    context.set_sepc(0);
    assert_eq!(context, Context { sepc: 0, ..sample_context(0x10) });
}
