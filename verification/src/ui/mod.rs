pub mod companies_tab;
pub mod detail_window;
pub mod new_company_form;
pub mod dispatch;
