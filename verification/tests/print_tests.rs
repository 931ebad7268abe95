//! Print support tests.
use browser_shell::print::{
    get_available_printers, get_default_printer, system_print_dialog_answer, Orientation, PageRange, Platform, PrintError,
    PrintJob, PrintJobStatus, PrintManager, PrintPreview, PrintQuality,
};

#[test]
fn test_orientation_display_name() {
    assert_eq!(Orientation::Portrait.display_name(), "Portrait");
    assert_eq!(Orientation::Landscape.display_name(), "Landscape");
}

#[test]
fn test_print_quality_dpi() {
    assert_eq!(PrintQuality::Draft.dpi(), 150);
    assert_eq!(PrintQuality::Normal.dpi(), 300);
    assert_eq!(PrintQuality::High.dpi(), 600);
    assert_eq!(PrintQuality::Best.dpi(), 1200);
}

#[test]
fn print_quality_display_names() {
    assert_eq!(PrintQuality::Draft.display_name(), "Draft (150 DPI)");
    assert_eq!(PrintQuality::Best.display_name(), "Best (1200 DPI)");
}

#[test]
fn test_page_range_all() {
    let range = PageRange::All;
    assert!(range.includes(1, 10));
    assert!(range.includes(5, 10));
    assert!(range.includes(10, 10));
    assert!(!range.includes(11, 10));
    assert_eq!(range.page_count(10), 10);
}

#[test]
fn test_page_range_specific() {
    let range = PageRange::range(2, 5);
    assert!(!range.includes(1, 10));
    assert!(range.includes(2, 10));
    assert!(range.includes(5, 10));
    assert!(!range.includes(6, 10));
    assert_eq!(range.page_count(10), 4);
}

#[test]
fn test_page_range_pages() {
    let range = PageRange::pages(vec![1, 3, 5, 7]);
    assert!(range.includes(1, 10));
    assert!(!range.includes(2, 10));
    assert!(range.includes(3, 10));
    assert_eq!(range.page_count(10), 4);
}

#[test]
fn test_page_range_parse() {
    let range = PageRange::parse("1-5").unwrap();
    assert_eq!(range.page_count(10), 5);

    let range = PageRange::parse("1,3,5").unwrap();
    assert_eq!(range.page_count(10), 3);

    let range = PageRange::parse("1-3,5,7-9").unwrap();
    assert_eq!(range.page_count(10), 7);

    let range = PageRange::parse("all").unwrap();
    assert!(matches!(range, PageRange::All));

    assert!(PageRange::parse("invalid").is_err());
}

#[test]
fn page_range_parse_sorts_and_dedups() {
    let range = PageRange::parse(" 5, 3-4 ,3,0 ").unwrap();
    assert_eq!(range, PageRange::Pages(vec![3, 4, 5]));
    assert_eq!(PageRange::parse("  ").unwrap(), PageRange::All);
    assert_eq!(PageRange::parse("ALL").unwrap(), PageRange::All);
    assert_eq!(PageRange::parse("+2").unwrap(), PageRange::Pages(vec![2]));
    assert_eq!(PageRange::parse("4-2").unwrap(), PageRange::Pages(vec![]));
}

#[test]
fn page_range_parse_error_messages() {
    assert_eq!(
        PageRange::parse("1,x").unwrap_err(),
        "Invalid page number: 'x'".to_string()
    );
    assert_eq!(
        PageRange::parse("2-y").unwrap_err(),
        "Invalid page number in '2-y'".to_string()
    );
    assert_eq!(
        PageRange::parse("-3").unwrap_err(),
        "Invalid page number in '-3'".to_string()
    );
}

#[test]
fn page_range_range_normalizes() {
    assert_eq!(PageRange::range(0, 0), PageRange::Range { start: 1, end: 1 });
    assert_eq!(PageRange::range(5, 2), PageRange::Range { start: 5, end: 5 });
    assert_eq!(PageRange::range(5, 2).page_count(3), 0);
    assert_eq!(PageRange::range(5, 8).page_count(3), 0);
    assert_eq!(PageRange::range(2, 8).page_count(3), 2);
    assert_eq!(PageRange::range(3, 8).page_count(3), 1);
    assert_eq!(PageRange::Current.page_count(10), 1);
    assert!(PageRange::Current.includes(1, 10));
    assert!(!PageRange::Current.includes(2, 10));
}

#[test]
fn page_range_pages_counts_only_within_document() {
    let range = PageRange::pages(vec![9, 2, 2, 0, 12]);
    assert_eq!(range, PageRange::Pages(vec![2, 9, 12]));
    assert_eq!(range.page_count(10), 2);
}

#[test]
fn test_job_status_terminal() {
    assert!(!PrintJobStatus::Queued.is_terminal());
    assert!(!PrintJobStatus::Printing.is_terminal());
    assert!(!PrintJobStatus::Paused.is_terminal());
    assert!(PrintJobStatus::Completed.is_terminal());
    assert!(PrintJobStatus::Cancelled.is_terminal());
    assert!(PrintJobStatus::Failed.is_terminal());
}

#[test]
fn test_job_status_active() {
    assert!(PrintJobStatus::Queued.is_active());
    assert!(PrintJobStatus::Printing.is_active());
    assert!(PrintJobStatus::Paused.is_active());
    assert!(!PrintJobStatus::Completed.is_active());
}

#[test]
fn job_status_display_names() {
    assert_eq!(PrintJobStatus::Queued.display_name(), "Queued");
    assert_eq!(PrintJobStatus::Failed.display_name(), "Failed");
}

#[test]
fn test_print_job_creation() {
    let job = PrintJob::new("Test Document".to_string(), 10, ());
    assert_eq!(job.title, "Test Document");
    assert_eq!(job.total_pages, 10);
    assert_eq!(job.printed_pages, 0);
    assert_eq!(job.status, PrintJobStatus::Queued);
}

#[test]
fn test_print_job_lifecycle() {
    let mut job = PrintJob::new("Test".to_string(), 2, ());

    assert_eq!(job.status, PrintJobStatus::Queued);

    job.start();
    assert_eq!(job.status, PrintJobStatus::Printing);

    job.pause();
    assert_eq!(job.status, PrintJobStatus::Paused);

    job.resume();
    assert_eq!(job.status, PrintJobStatus::Printing);

    job.page_printed();
    job.page_printed();
    assert_eq!(job.status, PrintJobStatus::Completed);
}

#[test]
fn test_print_job_cancel() {
    let mut job = PrintJob::new("Test".to_string(), 10, ());
    job.start();
    job.cancel();
    assert_eq!(job.status, PrintJobStatus::Cancelled);
}

#[test]
fn test_print_job_fail() {
    let mut job = PrintJob::new("Test".to_string(), 10, ());
    job.start();
    job.fail("Paper jam".to_string());
    assert_eq!(job.status, PrintJobStatus::Failed);
    assert_eq!(job.error_message, Some("Paper jam".to_string()));
}

#[test]
fn print_job_over_stays_over() {
    let mut job = PrintJob::new("Test".to_string(), 3, ());
    job.cancel();
    assert_eq!(job.status, PrintJobStatus::Cancelled);
    assert!(job.completed_at.is_some());
    job.start();
    job.resume();
    job.page_printed();
    assert_eq!(job.status, PrintJobStatus::Cancelled);
    assert_eq!(job.printed_pages, 0);
    job.complete();
    assert_eq!(job.status, PrintJobStatus::Completed);
    assert_eq!(job.printed_pages, 3);
}

#[test]
fn test_print_preview_navigation() {
    let mut preview: PrintPreview<()> = PrintPreview::new();
    preview.set_total_pages(5);

    assert_eq!(preview.current_page(), 1);

    preview.next_page();
    assert_eq!(preview.current_page(), 2);

    preview.prev_page();
    assert_eq!(preview.current_page(), 1);

    preview.prev_page();
    assert_eq!(preview.current_page(), 1);

    preview.set_current_page(5);
    assert_eq!(preview.current_page(), 5);

    preview.next_page();
    assert_eq!(preview.current_page(), 5);
}

#[test]
fn print_preview_total_pages_pulls_current_back() {
    let mut preview: PrintPreview<()> = PrintPreview::new();
    preview.set_total_pages(8);
    preview.set_current_page(7);
    preview.set_total_pages(3);
    assert_eq!(preview.current_page(), 3);
    preview.set_total_pages(0);
    assert_eq!(preview.total_pages(), 1);
    assert_eq!(preview.current_page(), 1);
    preview.set_current_page(0);
    assert_eq!(preview.current_page(), 1);
}

#[test]
fn test_print_preview_visibility() {
    let mut preview: PrintPreview<()> = PrintPreview::new();
    assert!(!preview.is_visible());

    preview.show();
    assert!(preview.is_visible());

    preview.dismiss();
    assert!(!preview.is_visible());
}

#[test]
fn test_print_preview_margins_toggle() {
    let mut preview: PrintPreview<()> = PrintPreview::new();
    assert!(preview.showing_margins());

    preview.toggle_margins();
    assert!(!preview.showing_margins());

    preview.toggle_margins();
    assert!(preview.showing_margins());
}

#[test]
fn test_print_manager_creation() {
    let manager: PrintManager<()> = PrintManager::new();
    assert!(manager.jobs().is_empty());
}

#[test]
fn test_print_manager_create_job() {
    let mut manager: PrintManager<()> = PrintManager::new();
    let id = manager.create_job("Test Doc".to_string(), 5);

    let job = manager.get_job(id).unwrap();
    assert_eq!(job.title, "Test Doc");
    assert_eq!(job.total_pages, 5);
}

#[test]
fn test_print_manager_cancel_job() {
    let mut manager: PrintManager<()> = PrintManager::new();
    let id = manager.create_job("Test".to_string(), 5);

    assert!(manager.cancel_job(id));

    let job = manager.get_job(id).unwrap();
    assert_eq!(job.status, PrintJobStatus::Cancelled);
}

#[test]
fn test_print_manager_clear_completed() {
    let mut manager: PrintManager<()> = PrintManager::new();
    let id1 = manager.create_job("Test1".to_string(), 5);
    let _id2 = manager.create_job("Test2".to_string(), 5);

    manager.cancel_job(id1);
    assert_eq!(manager.jobs().len(), 2);

    manager.clear_completed_jobs();
    assert_eq!(manager.jobs().len(), 1);
}

#[test]
fn test_print_manager_preview() {
    let mut manager: PrintManager<()> = PrintManager::new();
    assert!(!manager.preview().is_visible());

    manager.show_preview();
    assert!(manager.preview().is_visible());

    manager.hide_preview();
    assert!(!manager.preview().is_visible());
}

#[test]
fn print_manager_active_jobs_and_pdf() {
    let mut manager: PrintManager<u8> = PrintManager::new();
    let a = manager.create_job("A".to_string(), 1);
    let pdf = manager.print_to_pdf(7, "B".to_string(), 4).unwrap();
    assert_eq!(manager.active_jobs().len(), 1);
    assert_eq!(manager.active_jobs()[0].id, a);
    let job = manager.get_job(pdf).unwrap();
    assert_eq!(job.status, PrintJobStatus::Completed);
    assert_eq!(job.printed_pages, 4);
    assert_eq!(job.settings, 7);
}

#[test]
fn test_get_available_printers() {
    for platform in [Platform::Linux, Platform::MacOs, Platform::Windows] {
        let result = get_available_printers(platform);
        assert!(result.is_ok());
        assert_eq!(result.unwrap(), vec!["Default Printer".to_string()]);
    }
    assert_eq!(get_available_printers(Platform::Other), Err(PrintError::UnsupportedPlatform));
}

#[test]
fn test_get_default_printer() {
    for platform in [Platform::Linux, Platform::MacOs, Platform::Windows] {
        let result = get_default_printer(platform);
        assert!(result.is_ok());
        assert_eq!(result.unwrap(), Some("Default Printer".to_string()));
    }
    assert_eq!(get_default_printer(Platform::Other), Err(PrintError::UnsupportedPlatform));
}

#[test]
fn system_print_dialog_answer_by_platform() {
    assert_eq!(system_print_dialog_answer(Platform::Linux), Ok(true));
    assert_eq!(system_print_dialog_answer(Platform::MacOs), Ok(true));
    assert_eq!(system_print_dialog_answer(Platform::Windows), Ok(true));
    assert_eq!(system_print_dialog_answer(Platform::Other), Err(PrintError::UnsupportedPlatform));
}

#[test]
fn print_manager_numbers_jobs_in_turn() {
    let mut manager: PrintManager<u8> = PrintManager::new();
    let a = manager.create_job("A".to_string(), 1);
    let b = manager.create_job("B".to_string(), 2);
    let c = manager.print_to_pdf(3, "C".to_string(), 3).unwrap();
    assert_eq!(a.0, 1);
    assert_eq!(b.0, 2);
    assert_eq!(c.0, 3);
    manager.cancel_job(a);
    manager.clear_completed_jobs();
    let d = manager.create_job("D".to_string(), 1);
    assert_eq!(d.0, 4);
    assert_eq!(manager.get_job(d).unwrap().title, "D");
    assert_eq!(manager.get_job(b).unwrap().title, "B");
}
