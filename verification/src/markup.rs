//! The text of the pages: the frame, the style sheet, the script, and the
//! pieces of markup between which the pages put their values.

use vstd::prelude::*;

verus! {

/// The frame of every page, up to the title.
pub const LAYOUT_OPEN: &'static str = r#"<!DOCTYPE html>
<html lang="en">
<head>
    <meta charset="UTF-8">
    <meta name="viewport" content="width=device-width, initial-scale=1.0">
    <title>"#;

/// The frame of every page, between the title and the css.
pub const LAYOUT_AFTER_TITLE: &'static str = r#" - Chaos Dashboard</title>
    <style>
        "#;

/// The frame of every page, between the css and the content.
pub const LAYOUT_AFTER_CSS: &'static str = r#"
    </style>
</head>
<body>
    <nav class="navbar">
        <div class="nav-brand">
            <span class="logo">🦀</span>
            <span class="brand-text">Chaos Dashboard</span>
        </div>
        <div class="nav-links">
            <a href="/" class="nav-link">Dashboard</a>
            <a href="/scenarios" class="nav-link">Scenarios</a>
            <a href="/run" class="nav-link">Run Test</a>
            <a href="/load-test" class="nav-link">Load Test</a>
            <a href="/targets" class="nav-link">Targets</a>
            <a href="/results" class="nav-link">Results</a>
        </div>
    </nav>
    <main class="main-content">
        "#;

/// The frame of every page, between the content and the js.
pub const LAYOUT_AFTER_CONTENT: &'static str = r#"
    </main>
    <footer class="footer">
        <p>Chaos Engineering Framework &copy; 2025</p>
    </footer>
    <script>
        "#;

/// The frame of every page, after the js.
pub const LAYOUT_CLOSE: &'static str = r#"
    </script>
</body>
</html>"#;

/// The style sheet of every page: a dark theme.
pub const CSS_STYLES: &'static str = r#"
* {
    margin: 0;
    padding: 0;
    box-sizing: border-box;
}

:root {
    --bg-primary: #0d0d0d;
    --bg-secondary: #1a1a1a;
    --bg-tertiary: #2d2d2d;
    --bg-hover: #3d3d3d;
    --text-primary: #ffffff;
    --text-secondary: #a0a0a0;
    --text-muted: #6b6b6b;
    --accent-blue: #3b82f6;
    --accent-green: #22c55e;
    --accent-red: #ef4444;
    --accent-yellow: #eab308;
    --accent-purple: #a855f7;
    --border-color: #333333;
    --shadow: 0 4px 6px -1px rgba(0, 0, 0, 0.3);
}

body {
    font-family: -apple-system, BlinkMacSystemFont, 'Segoe UI', Roboto, 'Helvetica Neue', Arial, sans-serif;
    background-color: var(--bg-primary);
    color: var(--text-primary);
    line-height: 1.6;
    min-height: 100vh;
    display: flex;
    flex-direction: column;
}

/* Navigation */
.navbar {
    background-color: var(--bg-secondary);
    border-bottom: 1px solid var(--border-color);
    padding: 0 2rem;
    height: 64px;
    display: flex;
    align-items: center;
    justify-content: space-between;
    position: sticky;
    top: 0;
    z-index: 100;
}

.nav-brand {
    display: flex;
    align-items: center;
    gap: 0.75rem;
}

.logo {
    font-size: 1.5rem;
}

.brand-text {
    font-size: 1.25rem;
    font-weight: 600;
    color: var(--text-primary);
}

.nav-links {
    display: flex;
    gap: 0.5rem;
}

.nav-link {
    color: var(--text-secondary);
    text-decoration: none;
    padding: 0.5rem 1rem;
    border-radius: 6px;
    transition: all 0.2s ease;
    font-weight: 500;
}

.nav-link:hover {
    color: var(--text-primary);
    background-color: var(--bg-tertiary);
}

.nav-link.active {
    color: var(--accent-blue);
    background-color: rgba(59, 130, 246, 0.1);
}

/* Main Content */
.main-content {
    flex: 1;
    padding: 2rem;
    max-width: 1400px;
    margin: 0 auto;
    width: 100%;
}

/* Page Headers */
.page-header {
    margin-bottom: 2rem;
}

.page-title {
    font-size: 2rem;
    font-weight: 700;
    color: var(--text-primary);
    margin-bottom: 0.5rem;
}

.page-subtitle {
    color: var(--text-secondary);
    font-size: 1rem;
}

/* Cards */
.card {
    background-color: var(--bg-secondary);
    border: 1px solid var(--border-color);
    border-radius: 12px;
    padding: 1.5rem;
    margin-bottom: 1.5rem;
    transition: all 0.2s ease;
}

.card:hover {
    border-color: var(--bg-hover);
    box-shadow: var(--shadow);
}

.card-header {
    display: flex;
    align-items: center;
    justify-content: space-between;
    margin-bottom: 1rem;
    padding-bottom: 1rem;
    border-bottom: 1px solid var(--border-color);
}

.card-title {
    font-size: 1.25rem;
    font-weight: 600;
    color: var(--text-primary);
}

.card-body {
    color: var(--text-secondary);
}

/* Grid System */
.grid {
    display: grid;
    gap: 1.5rem;
}

.grid-2 {
    grid-template-columns: repeat(2, 1fr);
}

.grid-3 {
    grid-template-columns: repeat(3, 1fr);
}

.grid-4 {
    grid-template-columns: repeat(4, 1fr);
}

@media (max-width: 1024px) {
    .grid-4 { grid-template-columns: repeat(2, 1fr); }
    .grid-3 { grid-template-columns: repeat(2, 1fr); }
}

@media (max-width: 640px) {
    .grid-4, .grid-3, .grid-2 { grid-template-columns: 1fr; }
}

/* Stats Cards */
.stat-card {
    background-color: var(--bg-secondary);
    border: 1px solid var(--border-color);
    border-radius: 12px;
    padding: 1.5rem;
    display: flex;
    flex-direction: column;
}

.stat-icon {
    font-size: 2rem;
    margin-bottom: 0.5rem;
}

.stat-value {
    font-size: 2rem;
    font-weight: 700;
    color: var(--text-primary);
    margin-bottom: 0.25rem;
}

.stat-label {
    color: var(--text-secondary);
    font-size: 0.875rem;
    text-transform: uppercase;
    letter-spacing: 0.05em;
}

/* Buttons */
.btn {
    display: inline-flex;
    align-items: center;
    justify-content: center;
    gap: 0.5rem;
    padding: 0.75rem 1.5rem;
    border-radius: 8px;
    font-weight: 500;
    font-size: 0.875rem;
    cursor: pointer;
    transition: all 0.2s ease;
    border: none;
    text-decoration: none;
}

.btn-primary {
    background-color: var(--accent-blue);
    color: white;
}

.btn-primary:hover {
    background-color: #2563eb;
}

.btn-success {
    background-color: var(--accent-green);
    color: white;
}

.btn-success:hover {
    background-color: #16a34a;
}

.btn-danger {
    background-color: var(--accent-red);
    color: white;
}

.btn-danger:hover {
    background-color: #dc2626;
}

.btn-secondary {
    background-color: var(--bg-tertiary);
    color: var(--text-primary);
    border: 1px solid var(--border-color);
}

.btn-secondary:hover {
    background-color: var(--bg-hover);
}

.btn-sm {
    padding: 0.5rem 1rem;
    font-size: 0.75rem;
}

.btn-lg {
    padding: 1rem 2rem;
    font-size: 1rem;
}

/* Tables */
.table-container {
    overflow-x: auto;
    border-radius: 12px;
    border: 1px solid var(--border-color);
}

table {
    width: 100%;
    border-collapse: collapse;
    background-color: var(--bg-secondary);
}

th, td {
    padding: 1rem;
    text-align: left;
    border-bottom: 1px solid var(--border-color);
}

th {
    background-color: var(--bg-tertiary);
    font-weight: 600;
    color: var(--text-primary);
    text-transform: uppercase;
    font-size: 0.75rem;
    letter-spacing: 0.05em;
}

td {
    color: var(--text-secondary);
}

tr:hover td {
    background-color: var(--bg-tertiary);
}

tr:last-child td {
    border-bottom: none;
}

/* Status Badges */
.badge {
    display: inline-flex;
    align-items: center;
    padding: 0.25rem 0.75rem;
    border-radius: 9999px;
    font-size: 0.75rem;
    font-weight: 600;
    text-transform: uppercase;
    letter-spacing: 0.05em;
}

.badge-success {
    background-color: rgba(34, 197, 94, 0.15);
    color: var(--accent-green);
}

.badge-warning {
    background-color: rgba(234, 179, 8, 0.15);
    color: var(--accent-yellow);
}

.badge-danger {
    background-color: rgba(239, 68, 68, 0.15);
    color: var(--accent-red);
}

.badge-info {
    background-color: rgba(59, 130, 246, 0.15);
    color: var(--accent-blue);
}

.badge-neutral {
    background-color: var(--bg-tertiary);
    color: var(--text-secondary);
}

/* Progress Bar */
.progress-container {
    background-color: var(--bg-tertiary);
    border-radius: 9999px;
    height: 8px;
    overflow: hidden;
    margin: 1rem 0;
}

.progress-bar {
    height: 100%;
    background: linear-gradient(90deg, var(--accent-blue), var(--accent-purple));
    border-radius: 9999px;
    transition: width 0.3s ease;
}

/* Forms */
.form-group {
    margin-bottom: 1.5rem;
}

.form-label {
    display: block;
    margin-bottom: 0.5rem;
    font-weight: 500;
    color: var(--text-primary);
}

.form-input, .form-select, .form-textarea {
    width: 100%;
    padding: 0.75rem 1rem;
    background-color: var(--bg-tertiary);
    border: 1px solid var(--border-color);
    border-radius: 8px;
    color: var(--text-primary);
    font-size: 1rem;
    transition: all 0.2s ease;
}

.form-input:focus, .form-select:focus, .form-textarea:focus {
    outline: none;
    border-color: var(--accent-blue);
    box-shadow: 0 0 0 3px rgba(59, 130, 246, 0.1);
}

.form-textarea {
    min-height: 150px;
    resize: vertical;
}

/* Code Block */
.code-block {
    background-color: var(--bg-primary);
    border: 1px solid var(--border-color);
    border-radius: 8px;
    padding: 1rem;
    overflow-x: auto;
    font-family: 'Monaco', 'Menlo', 'Ubuntu Mono', monospace;
    font-size: 0.875rem;
    line-height: 1.5;
    color: var(--text-secondary);
}

.code-block code {
    color: var(--text-primary);
}

/* Scenario Card */
.scenario-card {
    background-color: var(--bg-secondary);
    border: 1px solid var(--border-color);
    border-radius: 12px;
    padding: 1.5rem;
    transition: all 0.2s ease;
    cursor: pointer;
}

.scenario-card:hover {
    border-color: var(--accent-blue);
    transform: translateY(-2px);
    box-shadow: var(--shadow);
}

.scenario-name {
    font-size: 1.125rem;
    font-weight: 600;
    color: var(--text-primary);
    margin-bottom: 0.5rem;
}

.scenario-meta {
    display: flex;
    gap: 1rem;
    color: var(--text-muted);
    font-size: 0.875rem;
    margin-top: 1rem;
}

.scenario-meta-item {
    display: flex;
    align-items: center;
    gap: 0.25rem;
}

/* Footer */
.footer {
    background-color: var(--bg-secondary);
    border-top: 1px solid var(--border-color);
    padding: 1.5rem 2rem;
    text-align: center;
    color: var(--text-muted);
    font-size: 0.875rem;
}

/* Utilities */
.text-center { text-align: center; }
.text-right { text-align: right; }
.text-primary { color: var(--text-primary); }
.text-secondary { color: var(--text-secondary); }
.text-muted { color: var(--text-muted); }
.text-success { color: var(--accent-green); }
.text-danger { color: var(--accent-red); }
.text-warning { color: var(--accent-yellow); }
.text-info { color: var(--accent-blue); }

.mb-1 { margin-bottom: 0.5rem; }
.mb-2 { margin-bottom: 1rem; }
.mb-3 { margin-bottom: 1.5rem; }
.mb-4 { margin-bottom: 2rem; }
.mt-1 { margin-top: 0.5rem; }
.mt-2 { margin-top: 1rem; }
.mt-3 { margin-top: 1.5rem; }
.mt-4 { margin-top: 2rem; }

.flex { display: flex; }
.flex-col { flex-direction: column; }
.items-center { align-items: center; }
.justify-between { justify-content: space-between; }
.gap-1 { gap: 0.5rem; }
.gap-2 { gap: 1rem; }
.gap-3 { gap: 1.5rem; }

/* Loading Spinner */
.spinner {
    width: 40px;
    height: 40px;
    border: 3px solid var(--bg-tertiary);
    border-top-color: var(--accent-blue);
    border-radius: 50%;
    animation: spin 1s linear infinite;
}

@keyframes spin {
    to { transform: rotate(360deg); }
}

/* Empty State */
.empty-state {
    text-align: center;
    padding: 4rem 2rem;
    color: var(--text-muted);
}

.empty-state-icon {
    font-size: 4rem;
    margin-bottom: 1rem;
    opacity: 0.5;
}

.empty-state-title {
    font-size: 1.25rem;
    font-weight: 600;
    color: var(--text-secondary);
    margin-bottom: 0.5rem;
}

/* Phase Timeline */
.timeline {
    position: relative;
    padding-left: 2rem;
}

.timeline::before {
    content: '';
    position: absolute;
    left: 0.5rem;
    top: 0;
    bottom: 0;
    width: 2px;
    background-color: var(--border-color);
}

.timeline-item {
    position: relative;
    padding-bottom: 1.5rem;
}

.timeline-item::before {
    content: '';
    position: absolute;
    left: -1.5rem;
    top: 0.5rem;
    width: 12px;
    height: 12px;
    border-radius: 50%;
    background-color: var(--bg-tertiary);
    border: 2px solid var(--border-color);
}

.timeline-item.active::before {
    background-color: var(--accent-blue);
    border-color: var(--accent-blue);
}

.timeline-item.completed::before {
    background-color: var(--accent-green);
    border-color: var(--accent-green);
}

.timeline-title {
    font-weight: 600;
    color: var(--text-primary);
    margin-bottom: 0.25rem;
}

.timeline-content {
    color: var(--text-secondary);
    font-size: 0.875rem;
}

/* Alert */
.alert {
    padding: 1rem 1.25rem;
    border-radius: 8px;
    margin-bottom: 1rem;
    display: flex;
    align-items: flex-start;
    gap: 0.75rem;
}

.alert-info {
    background-color: rgba(59, 130, 246, 0.1);
    border: 1px solid rgba(59, 130, 246, 0.3);
    color: var(--accent-blue);
}

.alert-success {
    background-color: rgba(34, 197, 94, 0.1);
    border: 1px solid rgba(34, 197, 94, 0.3);
    color: var(--accent-green);
}

.alert-warning {
    background-color: rgba(234, 179, 8, 0.1);
    border: 1px solid rgba(234, 179, 8, 0.3);
    color: var(--accent-yellow);
}

.alert-danger {
    background-color: rgba(239, 68, 68, 0.1);
    border: 1px solid rgba(239, 68, 68, 0.3);
    color: var(--accent-red);
}

/* Live Status */
.live-indicator {
    display: inline-flex;
    align-items: center;
    gap: 0.5rem;
}

.live-dot {
    width: 8px;
    height: 8px;
    border-radius: 50%;
    background-color: var(--accent-green);
    animation: pulse 2s infinite;
}

@keyframes pulse {
    0%, 100% { opacity: 1; }
    50% { opacity: 0.5; }
}
"#;

/// The script of every page: status polling and the actions behind the buttons.
pub const JS_SCRIPTS: &'static str = r#"
// Auto-refresh status when test is running
let statusInterval = null;
let loadTestInterval = null;

async function checkStatus() {
    try {
        const response = await fetch('/api/status');
        const status = await response.json();
        updateStatusUI(status);
        
        if (status.is_running && !statusInterval) {
            statusInterval = setInterval(checkStatus, 1000);
        } else if (!status.is_running && statusInterval) {
            clearInterval(statusInterval);
            statusInterval = null;
        }
    } catch (error) {
        console.error('Failed to fetch status:', error);
    }
}

function updateStatusUI(status) {
    const statusEl = document.getElementById('test-status');
    const progressEl = document.getElementById('progress-bar');
    const progressText = document.getElementById('progress-text');
    
    if (statusEl) {
        if (status.is_running) {
            statusEl.innerHTML = `
                <span class="live-indicator">
                    <span class="live-dot"></span>
                    Running: ${status.scenario_name || 'Unknown'}
                </span>
            `;
        } else {
            statusEl.innerHTML = '<span class="badge badge-neutral">Idle</span>';
        }
    }
    
    if (progressEl && status.is_running) {
        progressEl.style.width = `${status.progress_percent}%`;
    }
    
    if (progressText && status.is_running) {
        progressText.textContent = `${Math.round(status.progress_percent)}% - Phase: ${status.current_phase || 'Starting...'}`;
    }
}

async function runScenario(scenarioName) {
    try {
        const response = await fetch('/api/run', {
            method: 'POST',
            headers: { 'Content-Type': 'application/json' },
            body: JSON.stringify({ scenario: scenarioName })
        });
        
        if (response.ok) {
            checkStatus();
            window.location.href = '/run';
        } else {
            const error = await response.json();
            alert('Failed to start test: ' + (error.message || 'Unknown error'));
        }
    } catch (error) {
        alert('Failed to start test: ' + error.message);
    }
}

async function stopTest() {
    if (!confirm('Are you sure you want to stop the current test?')) return;
    
    try {
        const response = await fetch('/api/stop', { method: 'POST' });
        if (response.ok) {
            checkStatus();
        }
    } catch (error) {
        alert('Failed to stop test: ' + error.message);
    }
}

// Load Test Functions
async function startLoadTest() {
    const config = {
        name: document.getElementById('test-name')?.value || 'Load Test',
        target_type: document.getElementById('target-type')?.value || 'http',
        url: document.getElementById('target-url')?.value,
        method: document.getElementById('http-method')?.value || 'GET',
        body: document.getElementById('request-body')?.value || null,
        concurrent_users: parseInt(document.getElementById('concurrent-users')?.value) || 10,
        requests_per_second: parseInt(document.getElementById('rps')?.value) || 100,
        duration_secs: parseInt(document.getElementById('duration')?.value) || 60,
        timeout_ms: 5000,
        ramp_up_secs: parseInt(document.getElementById('ramp-up')?.value) || 10
    };

    if (!config.url) {
        alert('Please enter a target URL');
        return;
    }

    try {
        const response = await fetch('/api/load-test/start', {
            method: 'POST',
            headers: { 'Content-Type': 'application/json' },
            body: JSON.stringify(config)
        });
        
        if (response.ok) {
            location.reload();
        } else {
            const error = await response.json();
            alert('Failed to start load test: ' + (error.message || 'Unknown error'));
        }
    } catch (error) {
        alert('Failed to start load test: ' + error.message);
    }
}

async function stopLoadTest() {
    if (!confirm('Stop the load test?')) return;
    
    try {
        await fetch('/api/load-test/stop', { method: 'POST' });
        location.reload();
    } catch (error) {
        alert('Failed to stop: ' + error.message);
    }
}

async function checkLoadTestStatus() {
    try {
        const response = await fetch('/api/load-test/status');
        const data = await response.json();
        if (data.is_running) {
            location.reload();
        }
    } catch (error) {
        console.error('Failed to check load test status:', error);
    }
}

// Target Management Functions
async function addTarget() {
    const target = {
        name: document.getElementById('target-name')?.value,
        target_type: document.getElementById('new-target-type')?.value,
        url: document.getElementById('new-target-url')?.value,
        description: document.getElementById('new-target-desc')?.value || null
    };

    if (!target.name || !target.url) {
        alert('Please fill in name and URL');
        return;
    }

    try {
        const response = await fetch('/api/targets', {
            method: 'POST',
            headers: { 'Content-Type': 'application/json' },
            body: JSON.stringify(target)
        });
        
        if (response.ok) {
            location.reload();
        } else {
            alert('Failed to add target');
        }
    } catch (error) {
        alert('Failed to add target: ' + error.message);
    }
}

async function deleteTarget(id) {
    if (!confirm('Delete this target?')) return;
    
    try {
        const response = await fetch('/api/targets/' + id, { method: 'DELETE' });
        if (response.ok) {
            location.reload();
        }
    } catch (error) {
        alert('Failed to delete: ' + error.message);
    }
}

// Initialize on page load
document.addEventListener('DOMContentLoaded', function() {
    checkStatus();
    
    // Check load test status on load test page
    if (window.location.pathname === '/load-test') {
        loadTestInterval = setInterval(checkLoadTestStatus, 2000);
    }
    
    // Highlight current nav link
    const currentPath = window.location.pathname;
    document.querySelectorAll('.nav-link').forEach(link => {
        if (link.getAttribute('href') === currentPath) {
            link.classList.add('active');
        }
    });
});
"#;

/// The dashboard card for a run in progress, up to the scenario.
pub const PROGRESS_CARD_OPEN: &'static str = r#"<div class="card">
                <div class="card-header">
                    <h2 class="card-title">🔄 Test In Progress</h2>
                    <button class="btn btn-danger btn-sm" onclick="stopTest()">Stop Test</button>
                </div>
                <div class="card-body">
                    <p class="mb-2"><strong>Scenario:</strong> "#;

/// The dashboard card for a run in progress, between the scenario and the phase.
pub const PROGRESS_CARD_AFTER_SCENARIO: &'static str = r#"</p>
                    <p class="mb-2"><strong>Phase:</strong> "#;

/// The dashboard card for a run in progress, between the phase and the width.
pub const PROGRESS_CARD_AFTER_PHASE: &'static str = r#"</p>
                    <div class="progress-container">
                        <div class="progress-bar" id="progress-bar" style="width: "#;

/// The dashboard card for a run in progress, between the width and the percent.
pub const PROGRESS_CARD_AFTER_WIDTH: &'static str = r#"%"></div>
                    </div>
                    <p class="text-secondary" id="progress-text">"#;

/// The dashboard card for a run in progress, between the percent and the elapsed.
pub const PROGRESS_CARD_AFTER_PERCENT: &'static str = r#"% complete - "#;

/// The dashboard card for a run in progress, between the elapsed and the total.
pub const PROGRESS_CARD_AFTER_ELAPSED: &'static str = r#" / "#;

/// The dashboard card for a run in progress, after the total.
pub const PROGRESS_CARD_CLOSE: &'static str = r#" seconds</p>
                </div>
            </div>"#;

/// What a list of results shows when it is empty.
pub const NO_RESULTS: &'static str = r#"<div class="empty-state">
            <div class="empty-state-icon">📊</div>
            <p class="empty-state-title">No test results yet</p>
            <p>Run a chaos test to see results here</p>
        </div>"#;

/// One row of the recent results on the dashboard, up to the id.
pub const RECENT_ROW_OPEN: &'static str = r#"<tr onclick="window.location='/results/"#;

/// One row of the recent results on the dashboard, between the id and the scenario.
pub const RECENT_ROW_AFTER_ID: &'static str = r#"'">
                    <td>"#;

/// One row of the recent results on the dashboard, between the scenario and the class.
pub const RECENT_ROW_AFTER_SCENARIO: &'static str = r#"</td>
                    <td class=""#;

/// One row of the recent results on the dashboard, between the class and the rate.
pub const RECENT_ROW_AFTER_CLASS: &'static str = r#"">"#;

/// One row of the recent results on the dashboard, between the rate and the duration.
pub const RECENT_ROW_AFTER_RATE: &'static str = r#"%</td>
                    <td>"#;

/// One row of the recent results on the dashboard, between the duration and the time.
pub const RECENT_ROW_AFTER_DURATION: &'static str = r#"s</td>
                    <td>"#;

/// One row of the recent results on the dashboard, after the time.
pub const RECENT_ROW_CLOSE: &'static str = r#"</td>
                </tr>"#;

/// The table of recent results on the dashboard, up to the rows.
pub const RECENT_TABLE_OPEN: &'static str = r#"<div class="table-container">
                <table>
                    <thead>
                        <tr>
                            <th>Scenario</th>
                            <th>Success Rate</th>
                            <th>Duration</th>
                            <th>Time</th>
                        </tr>
                    </thead>
                    <tbody>"#;

/// The table of recent results on the dashboard, after the rows.
pub const RECENT_TABLE_CLOSE: &'static str = r#"</tbody>
                </table>
            </div>"#;

/// The dashboard, up to the status.
pub const DASHBOARD_OPEN: &'static str = r#"<div class="page-header">
            <h1 class="page-title">Dashboard</h1>
            <p class="page-subtitle">Monitor and manage your chaos engineering tests</p>
        </div>
        
        "#;

/// The dashboard, between the status and the scenarios.
pub const DASHBOARD_AFTER_STATUS: &'static str = r#"
        
        <div class="grid grid-4 mb-4">
            <div class="stat-card">
                <span class="stat-icon">📋</span>
                <span class="stat-value">"#;

/// The dashboard, between the scenarios and the results.
pub const DASHBOARD_AFTER_SCENARIOS: &'static str = r#"</span>
                <span class="stat-label">Scenarios</span>
            </div>
            <div class="stat-card">
                <span class="stat-icon">📊</span>
                <span class="stat-value">"#;

/// The dashboard, between the results and the badge.
pub const DASHBOARD_AFTER_RESULTS: &'static str = r#"</span>
                <span class="stat-label">Test Results</span>
            </div>
            <div class="stat-card">
                <span class="stat-icon">⚡</span>
                <span class="stat-value">7</span>
                <span class="stat-label">Injector Types</span>
            </div>
            <div class="stat-card">
                <span class="stat-icon" id="test-status">"#;

/// The dashboard, between the badge and the recent.
pub const DASHBOARD_AFTER_BADGE: &'static str = r#"</span>
                <span class="stat-value">&nbsp;</span>
                <span class="stat-label">Status</span>
            </div>
        </div>
        
        <div class="card">
            <div class="card-header">
                <h2 class="card-title">Recent Results</h2>
                <a href="/results" class="btn btn-secondary btn-sm">View All</a>
            </div>
            <div class="card-body">
                "#;

/// The dashboard, after the recent.
pub const DASHBOARD_CLOSE: &'static str = r#"
            </div>
        </div>
        
        <div class="grid grid-2">
            <div class="card">
                <div class="card-header">
                    <h2 class="card-title">Quick Actions</h2>
                </div>
                <div class="card-body flex flex-col gap-2">
                    <a href="/scenarios" class="btn btn-secondary">📋 Browse Scenarios</a>
                    <a href="/run" class="btn btn-primary">▶️ Run New Test</a>
                </div>
            </div>
            <div class="card">
                <div class="card-header">
                    <h2 class="card-title">Available Injectors</h2>
                </div>
                <div class="card-body">
                    <div class="flex gap-1" style="flex-wrap: wrap;">
                        <span class="badge badge-info">network_latency</span>
                        <span class="badge badge-info">packet_loss</span>
                        <span class="badge badge-info">tcp_reset</span>
                        <span class="badge badge-info">cpu_starvation</span>
                        <span class="badge badge-info">memory_pressure</span>
                        <span class="badge badge-info">disk_slow</span>
                        <span class="badge badge-info">process_kill</span>
                    </div>
                </div>
            </div>
        </div>"#;

/// The status badge while a run is in progress.
pub const BADGE_RUNNING: &'static str = r#"<span class="live-indicator"><span class="live-dot"></span> Running</span>"#;

/// The status badge while nothing runs.
pub const BADGE_IDLE: &'static str = r#"<span class="badge badge-neutral">Idle</span>"#;

/// What the list of scenarios shows when it is empty.
pub const NO_SCENARIOS: &'static str = r#"<div class="empty-state">
            <div class="empty-state-icon">📋</div>
            <p class="empty-state-title">No scenarios found</p>
            <p>Add YAML scenario files to the scenarios directory</p>
        </div>"#;

/// One card of the list of scenarios, up to the file.
pub const SCENARIO_CARD_OPEN: &'static str = r#"<div class="scenario-card" onclick="window.location='/scenarios/"#;

/// One card of the list of scenarios, between the file and the name.
pub const SCENARIO_CARD_AFTER_FILE: &'static str = r#"'">
                    <h3 class="scenario-name">"#;

/// One card of the list of scenarios, between the name and the description.
pub const SCENARIO_CARD_AFTER_NAME: &'static str = r#"</h3>
                    <p class="text-secondary">"#;

/// One card of the list of scenarios, between the description and the duration.
pub const SCENARIO_CARD_AFTER_DESCRIPTION: &'static str = r#"</p>
                    <div class="scenario-meta">
                        <span class="scenario-meta-item">⏱️ "#;

/// One card of the list of scenarios, between the duration and the phases.
pub const SCENARIO_CARD_AFTER_DURATION: &'static str = r#"</span>
                        <span class="scenario-meta-item">📊 "#;

/// One card of the list of scenarios, between the phases and the run.
pub const SCENARIO_CARD_AFTER_PHASES: &'static str = r#" phases</span>
                    </div>
                    <div class="mt-2">
                        <button class="btn btn-primary btn-sm" onclick="event.stopPropagation(); runScenario('"#;

/// One card of the list of scenarios, after the run.
pub const SCENARIO_CARD_CLOSE: &'static str = r#"')">
                            ▶️ Run
                        </button>
                    </div>
                </div>"#;

/// The list of scenarios, up to the cards.
pub const SCENARIOS_OPEN: &'static str = r#"<div class="page-header">
            <h1 class="page-title">Scenarios</h1>
            <p class="page-subtitle">Browse and run chaos test scenarios</p>
        </div>
        
        <div class="grid grid-3">
            "#;

/// The list of scenarios, after the cards.
pub const SCENARIOS_CLOSE: &'static str = r#"
        </div>"#;

/// The badge of one injection, up to the kind.
pub const INJECTION_BADGE_OPEN: &'static str = r#"<span class="badge badge-info">"#;

/// The badge of one injection, after the kind.
pub const INJECTION_BADGE_CLOSE: &'static str = r#"</span>"#;

/// One phase on the timeline of a scenario, up to the name.
pub const PHASE_ITEM_OPEN: &'static str = r#"<div class="timeline-item">
                <h4 class="timeline-title">"#;

/// One phase on the timeline of a scenario, between the name and the duration.
pub const PHASE_ITEM_AFTER_NAME: &'static str = r#"</h4>
                <p class="timeline-content">Duration: "#;

/// One phase on the timeline of a scenario, between the duration and the injections.
pub const PHASE_ITEM_AFTER_DURATION: &'static str = r#"</p>
                <div class="mt-1">"#;

/// One phase on the timeline of a scenario, after the injections.
pub const PHASE_ITEM_CLOSE: &'static str = r#"</div>
            </div>"#;

/// The page of one scenario, up to the name.
pub const SCENARIO_DETAIL_OPEN: &'static str = r#"<div class="page-header">
            <div class="flex justify-between items-center">
                <div>
                    <h1 class="page-title">"#;

/// The page of one scenario, between the name and the description.
pub const SCENARIO_DETAIL_AFTER_NAME: &'static str = r#"</h1>
                    <p class="page-subtitle">"#;

/// The page of one scenario, between the description and the file.
pub const SCENARIO_DETAIL_AFTER_DESCRIPTION: &'static str = r#"</p>
                </div>
                <button class="btn btn-primary btn-lg" onclick="runScenario('"#;

/// The page of one scenario, between the file and the phases.
pub const SCENARIO_DETAIL_AFTER_FILE: &'static str = r#"')">
                    ▶️ Run Test
                </button>
            </div>
        </div>
        
        <div class="grid grid-2">
            <div class="card">
                <div class="card-header">
                    <h2 class="card-title">Phases</h2>
                </div>
                <div class="card-body">
                    <div class="timeline">
                        "#;

/// The page of one scenario, between the phases and the yaml.
pub const SCENARIO_DETAIL_AFTER_PHASES: &'static str = r#"
                    </div>
                </div>
            </div>
            
            <div class="card">
                <div class="card-header">
                    <h2 class="card-title">Scenario Configuration</h2>
                </div>
                <div class="card-body">
                    <div class="code-block">
                        <code><pre>"#;

/// The page of one scenario, after the yaml.
pub const SCENARIO_DETAIL_CLOSE: &'static str = r#"</pre></code>
                    </div>
                </div>
            </div>
        </div>"#;

/// One option of a selection, up to the value.
pub const OPTION_OPEN: &'static str = r#"<option value=""#;

/// One option of a selection, between the value and the label.
pub const OPTION_AFTER_VALUE: &'static str = r#"">"#;

/// One option of a selection, between the label and the detail.
pub const OPTION_AFTER_LABEL: &'static str = r#" ("#;

/// One option of a selection, after the detail.
pub const OPTION_CLOSE: &'static str = r#")</option>"#;

/// The run page while a run is in progress, up to the scenario.
pub const RUN_PROGRESS_OPEN: &'static str = r#"<div class="alert alert-info mb-4">
                <span class="live-indicator">
                    <span class="live-dot"></span>
                    Test in progress
                </span>
            </div>
            
            <div class="card">
                <div class="card-header">
                    <h2 class="card-title">Current Test: "#;

/// The run page while a run is in progress, between the scenario and the phase.
pub const RUN_PROGRESS_AFTER_SCENARIO: &'static str = r#"</h2>
                    <button class="btn btn-danger" onclick="stopTest()">Stop Test</button>
                </div>
                <div class="card-body">
                    <p class="mb-2"><strong>Phase:</strong> <span id="current-phase">"#;

/// The run page while a run is in progress, between the phase and the width.
pub const RUN_PROGRESS_AFTER_PHASE: &'static str = r#"</span></p>
                    <div class="progress-container">
                        <div class="progress-bar" id="progress-bar" style="width: "#;

/// The run page while a run is in progress, between the width and the percent.
pub const RUN_PROGRESS_AFTER_WIDTH: &'static str = r#"%"></div>
                    </div>
                    <p class="text-secondary" id="progress-text">
                        "#;

/// The run page while a run is in progress, between the percent and the elapsed.
pub const RUN_PROGRESS_AFTER_PERCENT: &'static str = r#"% complete - "#;

/// The run page while a run is in progress, between the elapsed and the total.
pub const RUN_PROGRESS_AFTER_ELAPSED: &'static str = r#" / "#;

/// The run page while a run is in progress, after the total.
pub const RUN_PROGRESS_CLOSE: &'static str = r#" seconds elapsed
                    </p>
                </div>
            </div>"#;

/// The form that starts a run, up to the options.
pub const RUN_FORM_OPEN: &'static str = r#"<div class="card">
                <div class="card-header">
                    <h2 class="card-title">Run New Test</h2>
                </div>
                <div class="card-body">
                    <form id="run-form" onsubmit="event.preventDefault(); runScenario(document.getElementById('scenario-select').value);">
                        <div class="form-group">
                            <label class="form-label" for="scenario-select">Select Scenario</label>
                            <select id="scenario-select" class="form-select">
                                "#;

/// The form that starts a run, after the options.
pub const RUN_FORM_CLOSE: &'static str = r#"
                            </select>
                        </div>
                        <button type="submit" class="btn btn-primary btn-lg">
                            ▶️ Start Test
                        </button>
                    </form>
                </div>
            </div>"#;

/// The run page, up to the status.
pub const RUN_OPEN: &'static str = r#"<div class="page-header">
            <h1 class="page-title">Run Chaos Test</h1>
            <p class="page-subtitle">Execute chaos engineering scenarios</p>
        </div>
        
        "#;

/// One row of the list of results, up to the id.
pub const RESULT_ROW_OPEN: &'static str = r#"<tr onclick="window.location='/results/"#;

/// One row of the list of results, between the id and the scenario.
pub const RESULT_ROW_AFTER_ID: &'static str = r#"'" style="cursor: pointer;">
                    <td><strong>"#;

/// One row of the list of results, between the scenario and the class.
pub const RESULT_ROW_AFTER_SCENARIO: &'static str = r#"</strong></td>
                    <td><span class="badge "#;

/// One row of the list of results, between the class and the rate.
pub const RESULT_ROW_AFTER_CLASS: &'static str = r#"">"#;

/// One row of the list of results, between the rate and the duration.
pub const RESULT_ROW_AFTER_RATE: &'static str = r#"%</span></td>
                    <td>"#;

/// One row of the list of results, between the duration and the time.
pub const RESULT_ROW_AFTER_DURATION: &'static str = r#"s</td>
                    <td>"#;

/// One row of the list of results, between the time and the link.
pub const RESULT_ROW_AFTER_TIME: &'static str = r#"</td>
                    <td>
                        <a href="/results/"#;

/// One row of the list of results, after the link.
pub const RESULT_ROW_CLOSE: &'static str = r#"" class="btn btn-secondary btn-sm">View</a>
                    </td>
                </tr>"#;

/// The table of results, up to the rows.
pub const RESULTS_TABLE_OPEN: &'static str = r#"<div class="table-container">
                <table>
                    <thead>
                        <tr>
                            <th>Scenario</th>
                            <th>Success Rate</th>
                            <th>Duration</th>
                            <th>Timestamp</th>
                            <th>Actions</th>
                        </tr>
                    </thead>
                    <tbody>"#;

/// The table of results, after the rows.
pub const RESULTS_TABLE_CLOSE: &'static str = r#"</tbody>
                </table>
            </div>"#;

/// The list of results, up to the table.
pub const RESULTS_OPEN: &'static str = r#"<div class="page-header">
            <h1 class="page-title">Test Results</h1>
            <p class="page-subtitle">View historical chaos test results</p>
        </div>
        
        "#;

/// One phase on the timeline of a result, up to the name.
pub const PHASE_RESULT_OPEN: &'static str = r#"<div class="timeline-item completed">
                <h4 class="timeline-title">"#;

/// One phase on the timeline of a result, between the name and the duration.
pub const PHASE_RESULT_AFTER_NAME: &'static str = r#"</h4>
                <p class="timeline-content">Duration: "#;

/// One phase on the timeline of a result, between the duration and the injections.
pub const PHASE_RESULT_AFTER_DURATION: &'static str = r#" | Injections: "#;

/// One phase on the timeline of a result, after the injections.
pub const PHASE_RESULT_CLOSE: &'static str = r#"</p>
            </div>"#;

/// The page of one result, up to the scenario.
pub const RESULT_DETAIL_OPEN: &'static str = r#"<div class="page-header">
            <div class="flex justify-between items-center">
                <div>
                    <h1 class="page-title">"#;

/// The page of one result, between the scenario and the duration.
pub const RESULT_DETAIL_AFTER_SCENARIO: &'static str = r#"</h1>
                    <p class="page-subtitle">Test completed</p>
                </div>
                <a href="/results" class="btn btn-secondary">← Back to Results</a>
            </div>
        </div>
        
        <div class="grid grid-4 mb-4">
            <div class="stat-card">
                <span class="stat-icon">⏱️</span>
                <span class="stat-value">"#;

/// The page of one result, between the duration and the class.
pub const RESULT_DETAIL_AFTER_DURATION: &'static str = r#"s</span>
                <span class="stat-label">Duration</span>
            </div>
            <div class="stat-card">
                <span class="stat-icon">📊</span>
                <span class="stat-value "#;

/// The page of one result, between the class and the rate.
pub const RESULT_DETAIL_AFTER_CLASS: &'static str = r#"">"#;

/// The page of one result, between the rate and the injections.
pub const RESULT_DETAIL_AFTER_RATE: &'static str = r#"%</span>
                <span class="stat-label">Success Rate</span>
            </div>
            <div class="stat-card">
                <span class="stat-icon">⚡</span>
                <span class="stat-value">"#;

/// The page of one result, between the injections and the phases.
pub const RESULT_DETAIL_AFTER_INJECTIONS: &'static str = r#"</span>
                <span class="stat-label">Injections</span>
            </div>
            <div class="stat-card">
                <span class="stat-icon">📋</span>
                <span class="stat-value">"#;

/// The page of one result, between the phases and the timeline.
pub const RESULT_DETAIL_AFTER_PHASES: &'static str = r#"</span>
                <span class="stat-label">Phases</span>
            </div>
        </div>
        
        <div class="card">
            <div class="card-header">
                <h2 class="card-title">Phase Timeline</h2>
            </div>
            <div class="card-body">
                <div class="timeline">
                    "#;

/// The page of one result, after the timeline.
pub const RESULT_DETAIL_CLOSE: &'static str = r#"
                </div>
            </div>
        </div>"#;

/// The error page, up to the title.
pub const ERROR_OPEN: &'static str = r#"<div class="empty-state">
            <div class="empty-state-icon">❌</div>
            <p class="empty-state-title">"#;

/// The error page, between the title and the message.
pub const ERROR_AFTER_TITLE: &'static str = r#"</p>
            <p>"#;

/// The error page, after the message.
pub const ERROR_CLOSE: &'static str = r#"</p>
            <a href="/" class="btn btn-primary mt-3">← Back to Dashboard</a>
        </div>"#;

/// The load test page while a test is in progress, up to the total.
pub const LOAD_PROGRESS_OPEN: &'static str = r#"<div class="alert alert-info mb-4">
                <span class="live-indicator">
                    <span class="live-dot"></span>
                    Load test in progress
                </span>
            </div>
            
            <div class="grid grid-4 mb-4">
                <div class="stat-card">
                    <span class="stat-icon">📊</span>
                    <span class="stat-value">"#;

/// The load test page while a test is in progress, between the total and the successful.
pub const LOAD_PROGRESS_AFTER_TOTAL: &'static str = r#"</span>
                    <span class="stat-label">Total Requests</span>
                </div>
                <div class="stat-card">
                    <span class="stat-icon">✅</span>
                    <span class="stat-value text-success">"#;

/// The load test page while a test is in progress, between the successful and the failed.
pub const LOAD_PROGRESS_AFTER_SUCCESSFUL: &'static str = r#"</span>
                    <span class="stat-label">Successful</span>
                </div>
                <div class="stat-card">
                    <span class="stat-icon">❌</span>
                    <span class="stat-value text-danger">"#;

/// The load test page while a test is in progress, between the failed and the rate.
pub const LOAD_PROGRESS_AFTER_FAILED: &'static str = r#"</span>
                    <span class="stat-label">Failed</span>
                </div>
                <div class="stat-card">
                    <span class="stat-icon">⚡</span>
                    <span class="stat-value">"#;

/// The load test page while a test is in progress, between the rate and the average.
pub const LOAD_PROGRESS_AFTER_RATE: &'static str = r#"</span>
                    <span class="stat-label">Req/sec</span>
                </div>
            </div>
            
            <div class="grid grid-3 mb-4">
                <div class="stat-card">
                    <span class="stat-icon">🕐</span>
                    <span class="stat-value">"#;

/// The load test page while a test is in progress, between the average and the p95.
pub const LOAD_PROGRESS_AFTER_AVERAGE: &'static str = r#"ms</span>
                    <span class="stat-label">Avg Latency</span>
                </div>
                <div class="stat-card">
                    <span class="stat-icon">📈</span>
                    <span class="stat-value">"#;

/// The load test page while a test is in progress, between the p95 and the p99.
pub const LOAD_PROGRESS_AFTER_P95: &'static str = r#"ms</span>
                    <span class="stat-label">P95 Latency</span>
                </div>
                <div class="stat-card">
                    <span class="stat-icon">📉</span>
                    <span class="stat-value">"#;

/// The load test page while a test is in progress, after the p99.
pub const LOAD_PROGRESS_CLOSE: &'static str = r#"ms</span>
                    <span class="stat-label">P99 Latency</span>
                </div>
            </div>
            
            <button class="btn btn-danger btn-lg" onclick="stopLoadTest()">⏹️ Stop Test</button>"#;

/// The form that starts a load test, up to the saved.
pub const LOAD_FORM_OPEN: &'static str = r#"<div class="card">
                <div class="card-header">
                    <h2 class="card-title">Configure Load Test</h2>
                </div>
                <div class="card-body">
                    <form id="load-test-form" onsubmit="event.preventDefault(); startLoadTest();">
                        <div class="grid grid-2">
                            <div class="form-group">
                                <label class="form-label">Test Name</label>
                                <input type="text" id="test-name" class="form-input" value="My Load Test" required>
                            </div>
                            <div class="form-group">
                                <label class="form-label">Target Type</label>
                                <select id="target-type" class="form-select">
                                    <option value="http">HTTP/HTTPS API</option>
                                    <option value="websocket">WebSocket</option>
                                    <option value="tcp">TCP Socket</option>
                                    <option value="grpc">gRPC</option>
                                    <option value="hls">HLS Stream</option>
                                    <option value="rtmp">RTMP Stream</option>
                                </select>
                            </div>
                        </div>
                        
                        <div class="form-group">
                            <label class="form-label">Target URL</label>
                            <input type="text" id="target-url" class="form-input" placeholder="http://localhost:3000/api/endpoint" required>
                            "#;

/// The form that starts a load test, after the saved.
pub const LOAD_FORM_CLOSE: &'static str = r#"
                        </div>
                        
                        <div class="form-group">
                            <label class="form-label">HTTP Method</label>
                            <select id="http-method" class="form-select">
                                <option value="GET">GET</option>
                                <option value="POST">POST</option>
                                <option value="PUT">PUT</option>
                                <option value="DELETE">DELETE</option>
                                <option value="PATCH">PATCH</option>
                            </select>
                        </div>
                        
                        <div class="form-group">
                            <label class="form-label">Request Body (JSON)</label>
                            <textarea id="request-body" class="form-textarea" placeholder='{"key": "value"}'></textarea>
                        </div>
                        
                        <div class="grid grid-4">
                            <div class="form-group">
                                <label class="form-label">Concurrent Users</label>
                                <input type="number" id="concurrent-users" class="form-input" value="10" min="1" max="1000">
                            </div>
                            <div class="form-group">
                                <label class="form-label">Requests/Second</label>
                                <input type="number" id="rps" class="form-input" value="100" min="1" max="10000">
                            </div>
                            <div class="form-group">
                                <label class="form-label">Duration (seconds)</label>
                                <input type="number" id="duration" class="form-input" value="60" min="1" max="3600">
                            </div>
                            <div class="form-group">
                                <label class="form-label">Ramp-up (seconds)</label>
                                <input type="number" id="ramp-up" class="form-input" value="10" min="0" max="300">
                            </div>
                        </div>
                        
                        <button type="submit" class="btn btn-primary btn-lg">🚀 Start Load Test</button>
                    </form>
                </div>
            </div>"#;

/// The selection of saved targets, up to the options.
pub const SAVED_TARGETS_OPEN: &'static str = r#"<p class="text-secondary mt-1">Or select from saved targets:
                    <select id="saved-targets" class="form-select mt-1" onchange="document.getElementById('target-url').value = this.value">
                        <option value="">-- Select saved target --</option>
                        "#;

/// The selection of saved targets, after the options.
pub const SAVED_TARGETS_CLOSE: &'static str = r#"
                    </select>
                </p>"#;

/// The load test page, up to the status.
pub const LOAD_TEST_OPEN: &'static str = r#"<div class="page-header">
            <h1 class="page-title">Load Testing</h1>
            <p class="page-subtitle">Stress test your APIs, services, and video streams</p>
        </div>
        
        "#;

/// The load test page, after the status.
pub const LOAD_TEST_CLOSE: &'static str = r#"
        
        <div class="card mt-4">
            <div class="card-header">
                <h2 class="card-title">Supported Target Types</h2>
            </div>
            <div class="card-body">
                <div class="grid grid-3">
                    <div class="flex gap-2 items-center">
                        <span class="badge badge-info">HTTP/HTTPS</span>
                        <span class="text-secondary">REST APIs, Web Services</span>
                    </div>
                    <div class="flex gap-2 items-center">
                        <span class="badge badge-info">WebSocket</span>
                        <span class="text-secondary">Real-time connections</span>
                    </div>
                    <div class="flex gap-2 items-center">
                        <span class="badge badge-info">TCP</span>
                        <span class="text-secondary">Raw socket connections</span>
                    </div>
                    <div class="flex gap-2 items-center">
                        <span class="badge badge-info">gRPC</span>
                        <span class="text-secondary">Protocol buffer services</span>
                    </div>
                    <div class="flex gap-2 items-center">
                        <span class="badge badge-success">HLS</span>
                        <span class="text-secondary">Video streaming (HTTP Live)</span>
                    </div>
                    <div class="flex gap-2 items-center">
                        <span class="badge badge-success">RTMP</span>
                        <span class="text-secondary">Live video streams</span>
                    </div>
                </div>
            </div>
        </div>"#;

/// What the list of targets shows when it is empty.
pub const NO_TARGETS: &'static str = r#"<div class="empty-state">
            <div class="empty-state-icon">🎯</div>
            <p class="empty-state-title">No targets configured</p>
            <p>Add your first target to get started</p>
        </div>"#;

/// One row of the list of targets, up to the name.
pub const TARGET_ROW_OPEN: &'static str = r#"<tr>
                    <td><strong>"#;

/// One row of the list of targets, between the name and the kind.
pub const TARGET_ROW_AFTER_NAME: &'static str = r#"</strong></td>
                    <td><span class="badge badge-info">"#;

/// One row of the list of targets, between the kind and the url.
pub const TARGET_ROW_AFTER_KIND: &'static str = r#"</span></td>
                    <td><code>"#;

/// One row of the list of targets, between the url and the description.
pub const TARGET_ROW_AFTER_URL: &'static str = r#"</code></td>
                    <td>"#;

/// One row of the list of targets, between the description and the id.
pub const TARGET_ROW_AFTER_DESCRIPTION: &'static str = r#"</td>
                    <td>
                        <button class="btn btn-danger btn-sm" onclick="deleteTarget('"#;

/// One row of the list of targets, after the id.
pub const TARGET_ROW_CLOSE: &'static str = r#"')">Delete</button>
                    </td>
                </tr>"#;

/// The table of targets, up to the rows.
pub const TARGETS_TABLE_OPEN: &'static str = r#"<div class="table-container">
                <table>
                    <thead>
                        <tr>
                            <th>Name</th>
                            <th>Type</th>
                            <th>URL</th>
                            <th>Description</th>
                            <th>Actions</th>
                        </tr>
                    </thead>
                    <tbody>"#;

/// The table of targets, after the rows.
pub const TARGETS_TABLE_CLOSE: &'static str = r#"</tbody>
                </table>
            </div>"#;

/// The targets page, up to the table.
pub const TARGETS_OPEN: &'static str = r#"<div class="page-header">
            <h1 class="page-title">Targets</h1>
            <p class="page-subtitle">Manage your stress testing targets</p>
        </div>
        
        <div class="card mb-4">
            <div class="card-header">
                <h2 class="card-title">Add New Target</h2>
            </div>
            <div class="card-body">
                <form id="add-target-form" onsubmit="event.preventDefault(); addTarget();">
                    <div class="grid grid-2">
                        <div class="form-group">
                            <label class="form-label">Target Name</label>
                            <input type="text" id="target-name" class="form-input" placeholder="My API Server" required>
                        </div>
                        <div class="form-group">
                            <label class="form-label">Target Type</label>
                            <select id="new-target-type" class="form-select">
                                <option value="http">HTTP/HTTPS API</option>
                                <option value="websocket">WebSocket</option>
                                <option value="tcp">TCP Socket</option>
                                <option value="grpc">gRPC Service</option>
                                <option value="hls">HLS Video Stream</option>
                                <option value="rtmp">RTMP Stream</option>
                                <option value="pipeline">Data Pipeline</option>
                            </select>
                        </div>
                    </div>
                    <div class="form-group">
                        <label class="form-label">URL/Endpoint</label>
                        <input type="text" id="new-target-url" class="form-input" placeholder="http://localhost:3000" required>
                    </div>
                    <div class="form-group">
                        <label class="form-label">Description (optional)</label>
                        <input type="text" id="new-target-desc" class="form-input" placeholder="Production API endpoint">
                    </div>
                    <button type="submit" class="btn btn-primary">➕ Add Target</button>
                </form>
            </div>
        </div>
        
        <div class="card">
            <div class="card-header">
                <h2 class="card-title">Saved Targets</h2>
            </div>
            <div class="card-body">
                "#;

/// The targets page, after the table.
pub const TARGETS_CLOSE: &'static str = r#"
            </div>
        </div>"#;

} // verus!
