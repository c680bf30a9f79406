//! The fixed text of the HTML report, in the order in which it is written.
//! Between two pieces stands a value of the report.

use vstd::prelude::*;

verus! {

/// The head of the page, its style sheet and the figures, piece 0.
pub const PAGE_HEAD_0: &'static str = r##"<!DOCTYPE html>
<html lang="en">
<head>
    <meta charset="UTF-8">
    <meta name="viewport" content="width=device-width, initial-scale=1.0">
    <title>🔍 NullScan Report - "##;

/// The head of the page, its style sheet and the figures, piece 1.
pub const PAGE_HEAD_1: &'static str = r##"</title>
    <style>
        :root {
            --primary-color: #2563eb;
            --success-color: #059669;
            --danger-color: #dc2626;
            --warning-color: #d97706;
            --dark-bg: #1f2937;
            --card-bg: #ffffff;
            --text-primary: #111827;
            --text-secondary: #6b7280;
            --border-color: #e5e7eb;
            --shadow: 0 1px 3px 0 rgba(0, 0, 0, 0.1), 0 1px 2px 0 rgba(0, 0, 0, 0.06);
        }

        * {
            margin: 0;
            padding: 0;
            box-sizing: border-box;
        }

        body {
            font-family: -apple-system, BlinkMacSystemFont, 'Segoe UI', 'Roboto', sans-serif;
            line-height: 1.6;
            background: linear-gradient(135deg, #667eea 0%, #764ba2 100%);
            min-height: 100vh;
            padding: 20px;
        }

        .container {
            max-width: 1200px;
            margin: 0 auto;
            background: var(--card-bg);
            border-radius: 12px;
            box-shadow: var(--shadow);
            overflow: hidden;
        }

        .header {
            background: var(--dark-bg);
            color: white;
            padding: 30px;
            text-align: center;
        }

        .header h1 {
            font-size: 2.5rem;
            margin-bottom: 10px;
            display: flex;
            align-items: center;
            justify-content: center;
            gap: 10px;
        }

        .header .subtitle {
            color: #9ca3af;
            font-size: 1.1rem;
        }

        .stats-grid {
            display: grid;
            grid-template-columns: repeat(auto-fit, minmax(200px, 1fr));
            gap: 20px;
            padding: 30px;
            background: #f9fafb;
        }

        .stat-card {
            background: var(--card-bg);
            padding: 20px;
            border-radius: 8px;
            box-shadow: var(--shadow);
            text-align: center;
        }

        .stat-value {
            font-size: 2rem;
            font-weight: bold;
            color: var(--primary-color);
        }

        .stat-label {
            color: var(--text-secondary);
            font-size: 0.9rem;
            margin-top: 5px;
        }

        .results-section {
            padding: 30px;
        }

        .section-title {
            font-size: 1.5rem;
            margin-bottom: 20px;
            color: var(--text-primary);
            display: flex;
            align-items: center;
            gap: 10px;
        }

        .host-group {
            margin-bottom: 30px;
            border: 1px solid var(--border-color);
            border-radius: 8px;
            overflow: hidden;
        }

        .host-header {
            background: #f3f4f6;
            padding: 15px 20px;
            border-bottom: 1px solid var(--border-color);
            cursor: pointer;
            display: flex;
            justify-content: space-between;
            align-items: center;
            transition: background-color 0.2s;
        }

        .host-header:hover {
            background: #e5e7eb;
        }

        .host-title {
            font-weight: 600;
            color: var(--text-primary);
        }

        .port-count {
            background: var(--success-color);
            color: white;
            padding: 4px 12px;
            border-radius: 20px;
            font-size: 0.8rem;
            font-weight: 600;
        }

        .collapse-icon {
            transition: transform 0.3s ease;
        }

        .collapsed .collapse-icon {
            transform: rotate(-90deg);
        }

        .ports-table {
            width: 100%;
            border-collapse: collapse;
            background: var(--card-bg);
        }

        .ports-table th {
            background: var(--primary-color);
            color: white;
            padding: 12px;
            text-align: left;
            font-weight: 600;
            cursor: pointer;
            user-select: none;
            position: relative;
        }

        .ports-table th:hover {
            background: #1d4ed8;
        }

        .ports-table th::after {
            content: '↕';
            position: absolute;
            right: 8px;
            opacity: 0.7;
        }

        .ports-table td {
            padding: 12px;
            border-bottom: 1px solid var(--border-color);
            vertical-align: top;
        }

        .ports-table tr:nth-child(even) {
            background: #f9fafb;
        }

        .ports-table tr:hover {
            background: #f3f4f6;
        }

        .port-number {
            font-weight: 600;
            color: var(--primary-color);
            font-family: 'Courier New', monospace;
        }

        .service-tag {
            display: inline-block;
            padding: 4px 8px;
            background: var(--success-color);
            color: white;
            border-radius: 4px;
            font-size: 0.8rem;
            font-weight: 600;
        }

        .banner-text {
            font-family: 'Courier New', monospace;
            font-size: 0.9rem;
            background: #f3f4f6;
            padding: 6px 8px;
            border-radius: 4px;
            max-width: 400px;
            word-break: break-all;
            color: #374151;
        }

        .vuln-cell {
            font-size: 0.85rem;
            max-width: 300px;
        }

        .vuln-cell div {
            padding: 2px 0;
        }

        .response-time {
            color: var(--success-color);
            font-weight: 600;
        }

        .no-results {
            text-align: center;
            padding: 40px;
            color: var(--text-secondary);
        }

        .footer {
            background: #f9fafb;
            padding: 20px;
            text-align: center;
            color: var(--text-secondary);
            border-top: 1px solid var(--border-color);
        }

        .controls {
            margin-bottom: 20px;
            display: flex;
            gap: 10px;
            align-items: center;
        }

        .btn {
            padding: 8px 16px;
            border: 1px solid var(--border-color);
            background: white;
            border-radius: 6px;
            cursor: pointer;
            font-size: 0.9rem;
            transition: all 0.2s;
        }

        .btn:hover {
            background: #f3f4f6;
        }

        .btn.active {
            background: var(--primary-color);
            color: white;
            border-color: var(--primary-color);
        }

        @media (max-width: 768px) {
            .container {
                margin: 10px;
                border-radius: 8px;
            }

            .header {
                padding: 20px;
            }

            .header h1 {
                font-size: 2rem;
            }

            .stats-grid {
                grid-template-columns: 1fr;
                padding: 20px;
            }

            .results-section {
                padding: 20px;
            }

            .ports-table {
                font-size: 0.9rem;
            }

            .controls {
                flex-direction: column;
                align-items: stretch;
            }
        }

        .collapsible-content {
            max-height: 1000px;
            overflow: hidden;
            transition: max-height 0.3s ease;
        }

        .collapsed .collapsible-content {
            max-height: 0;
        }
    </style>
</head>
<body>
    <div class="container">
        <div class="header">
            <h1>🔍 NullScan Report</h1>
            <div class="subtitle">Professional Port Scanning Results</div>
        </div>

        <div class="stats-grid">
            <div class="stat-card">
                <div class="stat-value">"##;

/// The head of the page, its style sheet and the figures, piece 2.
pub const PAGE_HEAD_2: &'static str = r##"</div>
                <div class="stat-label">Target"##;

/// The head of the page, its style sheet and the figures, piece 3.
pub const PAGE_HEAD_3: &'static str = r##"</div>
            </div>
            <div class="stat-card">
                <div class="stat-value">"##;

/// The head of the page, its style sheet and the figures, piece 4.
pub const PAGE_HEAD_4: &'static str = r##"</div>
                <div class="stat-label">Ports Scanned</div>
            </div>
            <div class="stat-card">
                <div class="stat-value">"##;

/// The head of the page, its style sheet and the figures, piece 5.
pub const PAGE_HEAD_5: &'static str = r##"</div>
                <div class="stat-label">Open Ports</div>
            </div>
            <div class="stat-card">
                <div class="stat-value">"##;

/// The head of the page, its style sheet and the figures, piece 6.
pub const PAGE_HEAD_6: &'static str = r##"</div>
                <div class="stat-label">Scan Duration</div>
            </div>
        </div>

        <div class="results-section">
            <div class="section-title">
                🟢 Open Ports
            </div>

            <div class="controls">
                <button class="btn" onclick="expandAll()">Expand All</button>
                <button class="btn" onclick="collapseAll()">Collapse All</button>
                <button class="btn" onclick="exportToClipboard()">📋 Copy Results</button>
            </div>
"##;

/// The notice that no port is open.
pub const NO_RESULTS: &'static str = r##"
            <div class="no-results">
                <h3>🚫 No Open Ports Found</h3>
                <p>All scanned ports were closed or filtered.</p>
            </div>
        "##;

/// The head of a host's table, piece 0.
pub const HOST_HEAD_0: &'static str = r##"
            <div class="host-group">
                <div class="host-header" onclick="toggleHost('"##;

/// The head of a host's table, piece 1.
pub const HOST_HEAD_1: &'static str = r##"')">
                    <div class="host-title">📡 "##;

/// The head of a host's table, piece 2.
pub const HOST_HEAD_2: &'static str = r##"</div>
                    <div class="port-count">"##;

/// The head of a host's table, piece 3.
pub const HOST_HEAD_3: &'static str = r##" ports</div>
                    <div class="collapse-icon">▼</div>
                </div>
                <div class="collapsible-content" id="content_"##;

/// The head of a host's table, piece 4.
pub const HOST_HEAD_4: &'static str = r##"">
                    <table class="ports-table">
                        <thead>
                            <tr>
                                <th onclick="sortTable('"##;

/// The head of a host's table, piece 5.
pub const HOST_HEAD_5: &'static str = r##"', 0)">Port</th>
                                <th onclick="sortTable('"##;

/// The head of a host's table, piece 6.
pub const HOST_HEAD_6: &'static str = r##"', 1)">Service</th>
                                <th onclick="sortTable('"##;

/// The head of a host's table, piece 7.
pub const HOST_HEAD_7: &'static str = r##"', 2)">Banner</th>
                                <th onclick="sortTable('"##;

/// The head of a host's table, piece 8.
pub const HOST_HEAD_8: &'static str = r##"', 3)">Vulnerabilities</th>
                                <th onclick="sortTable('"##;

/// The head of a host's table, piece 9.
pub const HOST_HEAD_9: &'static str = r##"', 4)">Response Time</th>
                            </tr>
                        </thead>
                        <tbody id="tbody_"##;

/// The head of a host's table, piece 10.
pub const HOST_HEAD_10: &'static str = r##"">
"##;

/// A table row, piece 0.
pub const ROW_0: &'static str = r##"
                            <tr>
                                <td><span class="port-number">"##;

/// A table row, piece 1.
pub const ROW_1: &'static str = r##"</span></td>
                                <td><span class="service-tag">"##;

/// A table row, piece 2.
pub const ROW_2: &'static str = r##"</span></td>
                                <td><div class="banner-text">"##;

/// A table row, piece 3.
pub const ROW_3: &'static str = r##"</div></td>
                                <td><div class="vuln-cell">"##;

/// A table row, piece 4.
pub const ROW_4: &'static str = r##"</div></td>
                                <td><span class="response-time">"##;

/// A table row, piece 5.
pub const ROW_5: &'static str = r##"ms</span></td>
                            </tr>
"##;

/// The end of a host's table.
pub const HOST_END: &'static str = r##"
                        </tbody>
                    </table>
                </div>
            </div>
"##;

/// The footer and the script of the page, piece 0.
pub const PAGE_END_0: &'static str = r##"
        </div>

        <div class="footer">
            <p>Generated by <strong>NullScan v1.6.0</strong> • "##;

/// The footer and the script of the page, piece 1.
pub const PAGE_END_1: &'static str = r##"</p>
            <p>🔍 Professional Port Scanner • <a href="https://github.com/Nullgrimoire/NullScan" target="_blank">GitHub</a></p>
        </div>
    </div>

    <script>
        function toggleHost(hostId) {
            const content = document.getElementById('content_' + hostId);
            const header = content.previousElementSibling;

            if (content.style.maxHeight === '0px' || content.style.maxHeight === '') {
                content.style.maxHeight = content.scrollHeight + 'px';
                header.classList.remove('collapsed');
            } else {
                content.style.maxHeight = '0px';
                header.classList.add('collapsed');
            }
        }

        function expandAll() {
            document.querySelectorAll('.collapsible-content').forEach(content => {
                content.style.maxHeight = content.scrollHeight + 'px';
                content.previousElementSibling.classList.remove('collapsed');
            });
        }

        function collapseAll() {
            document.querySelectorAll('.collapsible-content').forEach(content => {
                content.style.maxHeight = '0px';
                content.previousElementSibling.classList.add('collapsed');
            });
        }

        function sortTable(hostId, columnIndex) {
            const table = document.getElementById('tbody_' + hostId);
            const rows = Array.from(table.rows);

            rows.sort((a, b) => {
                const aVal = a.cells[columnIndex].textContent.trim();
                const bVal = b.cells[columnIndex].textContent.trim();

                // Special handling for port numbers and response times
                if (columnIndex === 0 || columnIndex === 4) {
                    return parseInt(aVal) - parseInt(bVal);
                }

                return aVal.localeCompare(bVal);
            });

            // Re-append sorted rows
            rows.forEach(row => table.appendChild(row));
        }

        function exportToClipboard() {
            let text = 'NullScan Results\\n';
            text += '==================\\n\\n';

            document.querySelectorAll('.host-group').forEach(group => {
                const hostTitle = group.querySelector('.host-title').textContent;
                text += hostTitle + '\\n';
                text += '-'.repeat(hostTitle.length) + '\\n';

                const rows = group.querySelectorAll('tbody tr');
                rows.forEach(row => {
                    const cells = row.querySelectorAll('td');
                    const vulns = cells[3].textContent.trim() !== 'None' ? ` - Vulns: ${cells[3].textContent.trim()}` : '';
                    text += `Port ${cells[0].textContent.trim()}: ${cells[1].textContent.trim()} - ${cells[2].textContent.trim()}${vulns}\\n`;
                });
                text += '\\n';
            });

            navigator.clipboard.writeText(text).then(() => {
                alert('Results copied to clipboard!');
            }).catch(() => {
                alert('Failed to copy to clipboard. Please select and copy manually.');
            });
        }

        // Initialize with all sections expanded
        document.addEventListener('DOMContentLoaded', () => {
            expandAll();
        });
    </script>
</body>
</html>"##;

} // verus!
